use vstd::prelude::*;
use vstd::arithmetic::div_mod::*;
use vstd::arithmetic::mul::*;

verus! {

/// How a target size is computed from a source size.
#[derive(Debug, Clone, Copy, PartialEq, Eq, Structural)]
pub enum ScaleMode {
    /// Keep the source size.
    NoScale,
    /// Fit into a maximum width, keeping the aspect ratio.
    MaxWidth,
    /// Fit into a maximum height, keeping the aspect ratio.
    MaxHeight,
    /// Divide both sides by an integer.
    Divide,
    /// Snap to the multiple of the aspect-ratio unit whose width is nearest to the value.
    NearCommonDivisorConsiderWidth,
    /// Snap to the multiple of the aspect-ratio unit whose height is nearest to the value.
    NearCommonDivisorConsiderHeight,
    /// Scale so that the image covers `value` x `sub_value`, to be cropped afterwards.
    ResizeAndCrop,
}

/// A scale policy: a mode and its one or two parameters.
#[derive(Debug, Clone, Copy, PartialEq, Eq, Structural)]
pub struct ScaleConfig {
    pub mode: ScaleMode,
    pub value: u32,
    pub sub_value: u32,
}

/// Greatest common divisor, by Euclid's algorithm.
pub open spec fn spec_gcd(a: nat, b: nat) -> nat
    decreases b,
{
    if b == 0 {
        a
    } else {
        spec_gcd(b, a % b)
    }
}

/// `n / d` rounded to the nearest integer, halves rounded up.
pub open spec fn round_div(n: int, d: int) -> int {
    (2 * n + d) / (2 * d)
}

/// What a conversion to `u32` keeps of a non-negative value: too large a value
/// becomes `u32::MAX`.
pub open spec fn saturate(x: int) -> int {
    if x > u32::MAX {
        u32::MAX as int
    } else {
        x
    }
}

/// The target size under a policy, for an image shown as it is stored.
pub open spec fn plan(cfg: ScaleConfig, w: int, h: int) -> (int, int) {
    let v = cfg.value as int;
    let s = cfg.sub_value as int;
    match cfg.mode {
        ScaleMode::NoScale => (w, h),
        ScaleMode::MaxWidth => if w == 0 || h == 0 || w < v {
            (w, h)
        } else {
            (v, round_div(h * v, w))
        },
        ScaleMode::MaxHeight => if w == 0 || h == 0 || h < v {
            (w, h)
        } else {
            (round_div(w * v, h), v)
        },
        ScaleMode::Divide => if v == 0 {
            (w, h)
        } else {
            (w / v, h / v)
        },
        ScaleMode::NearCommonDivisorConsiderWidth => {
            let g = spec_gcd(w as nat, h as nat) as int;
            let k = round_div(v, w / g);
            ((w / g) * k, (h / g) * k)
        },
        ScaleMode::NearCommonDivisorConsiderHeight => {
            let g = spec_gcd(w as nat, h as nat) as int;
            let k = round_div(v, h / g);
            ((w / g) * k, (h / g) * k)
        },
        ScaleMode::ResizeAndCrop => if w == 0 || h == 0 {
            (w, h)
        } else if w * s > v * h {
            (saturate(round_div(w * s, h)), s)
        } else {
            (v, saturate(round_div(h * v, w)))
        },
    }
}

/// The policy that, applied to an image stored a quarter turn away from
/// upright, has the effect that `cfg` has on the upright image.
pub open spec fn rotated_config(cfg: ScaleConfig) -> ScaleConfig {
    let mode = match cfg.mode {
        ScaleMode::MaxWidth => ScaleMode::MaxHeight,
        ScaleMode::MaxHeight => ScaleMode::MaxWidth,
        ScaleMode::NearCommonDivisorConsiderWidth => ScaleMode::NearCommonDivisorConsiderHeight,
        ScaleMode::NearCommonDivisorConsiderHeight => ScaleMode::NearCommonDivisorConsiderWidth,
        other => other,
    };
    if cfg.mode == ScaleMode::ResizeAndCrop {
        ScaleConfig { mode, value: cfg.sub_value, sub_value: cfg.value }
    } else {
        ScaleConfig { mode, value: cfg.value, sub_value: cfg.sub_value }
    }
}

/// The policy that is applied to a stored image.
pub open spec fn effective_config(cfg: ScaleConfig, is_vert_rot: bool) -> ScaleConfig {
    if is_vert_rot {
        rotated_config(cfg)
    } else {
        cfg
    }
}

/// The target size of `apply`.
pub open spec fn planned_size(cfg: ScaleConfig, w: u32, h: u32, is_vert_rot: bool) -> (int, int) {
    plan(effective_config(cfg, is_vert_rot), w as int, h as int)
}

/// The inputs on which a policy can be applied: the modes that snap to the
/// aspect-ratio unit need both sides positive and a result that fits in `u32`.
pub open spec fn plan_fits(cfg: ScaleConfig, w: u32, h: u32, is_vert_rot: bool) -> bool {
    let c = effective_config(cfg, is_vert_rot);
    let r = plan(c, w as int, h as int);
    match c.mode {
        ScaleMode::NearCommonDivisorConsiderWidth | ScaleMode::NearCommonDivisorConsiderHeight => {
            &&& w > 0
            &&& h > 0
            &&& r.0 <= u32::MAX
            &&& r.1 <= u32::MAX
        },
        _ => true,
    }
}

/// Relies on gcd::euclid_nonzero_u32: the greatest common divisor of two
/// positive integers, by Euclid's algorithm.
#[verifier::external_body]
fn gcd_nonzero(a: u32, b: u32) -> (r: u32)
    requires
        a > 0,
        b > 0,
    ensures
        r == spec_gcd(a as nat, b as nat),
{
    let a = std::num::NonZeroU32::new(a).unwrap();
    let b = std::num::NonZeroU32::new(b).unwrap();
    gcd::euclid_nonzero_u32(a, b).get()
}

proof fn lemma_gcd_divides(a: nat, b: nat)
    requires
        a > 0 || b > 0,
    ensures
        spec_gcd(a, b) > 0,
        a % spec_gcd(a, b) == 0,
        b % spec_gcd(a, b) == 0,
    decreases b,
{
    if b > 0 {
        let r = a % b;
        lemma_gcd_divides(b, r);
        let g = spec_gcd(b, r);
        lemma_fundamental_div_mod(a as int, b as int);
        lemma_fundamental_div_mod(b as int, g as int);
        lemma_fundamental_div_mod(r as int, g as int);
        let q = a as int / b as int;
        let m = b as int / g as int;
        let n = r as int / g as int;
        assert(a as int == g * (m * q + n)) by (nonlinear_arith)
            requires
                a as int == b as int * q + r as int,
                b as int == g * m,
                r as int == g * n,
        ;
        lemma_mod_multiples_basic(m * q + n, g as int);
    }
}

proof fn lemma_gcd_commutes(a: nat, b: nat)
    ensures
        spec_gcd(a, b) == spec_gcd(b, a),
{
    if a < b {
        lemma_small_mod(a, b);
        assert(spec_gcd(a, b) == spec_gcd(b, a % b));
    } else if b < a {
        lemma_small_mod(b, a);
        assert(spec_gcd(b, a) == spec_gcd(a, b % a));
    }
}

/// `round_div` on the exact ratio gives that ratio back.
proof fn lemma_round_div_exact(q: int, d: int)
    requires
        d > 0,
        q >= 0,
    ensures
        round_div(q * d, d) == q,
{
    assert(2 * (q * d) + d == (2 * q + 1) * d) by (nonlinear_arith);
    assert((2 * q + 1) * d == q * (2 * d) + d) by (nonlinear_arith);
    lemma_fundamental_div_mod_converse(q * (2 * d) + d, 2 * d, q, d);
}

/// `round_div(n, d)` is at least `q` when `n / d` is.
proof fn lemma_round_div_at_least(n: int, d: int, q: int)
    requires
        d > 0,
        n >= q * d,
        q >= 0,
    ensures
        round_div(n, d) >= q,
{
    assert(2 * n + d >= q * (2 * d)) by (nonlinear_arith)
        requires
            n >= q * d,
            d > 0,
    ;
    lemma_div_is_ordered(q * (2 * d), 2 * n + d, 2 * d);
    lemma_div_multiples_vanish(q, 2 * d);
}

/// `round_div(n, d)` is at most `n` when `d` is positive.
proof fn lemma_round_div_at_most(n: int, d: int)
    requires
        d > 0,
        n >= 0,
    ensures
        0 <= round_div(n, d) <= n,
{
    let x = 2 * n + d;
    lemma_div_pos_is_pos(x, 2 * d);
    lemma_fundamental_div_mod(x, 2 * d);
    lemma_mod_pos_bound(x, 2 * d);
    let q = x / (2 * d);
    let r = x % (2 * d);
    assert(q <= n) by (nonlinear_arith)
        requires
            (2 * d) * q + r == 2 * n + d,
            r >= 0,
            d > 0,
            n >= 0,
    ;
}

/// The product of two `u32` values, which always fits in `u64`.
fn mul_wide(a: u32, b: u32) -> (r: u64)
    ensures
        r == a as int * b as int,
{
    proof {
        lemma_mul_upper_bound(a as int, u32::MAX as int, b as int, u32::MAX as int);
    }
    (a as u64) * (b as u64)
}

/// `(2n + d) / (2d)`, computed without overflow.
fn round_div_exec(n: u64, d: u64) -> (r: u64)
    requires
        d > 0,
        d <= u32::MAX,
    ensures
        r == round_div(n as int, d as int),
{
    let num: u128 = 2 * (n as u128) + (d as u128);
    let den: u128 = 2 * (d as u128);
    let q: u128 = num / den;
    proof {
        lemma_round_div_at_most(n as int, d as int);
    }
    q as u64
}

/// Converts a non-negative value to `u32`, keeping `u32::MAX` for larger ones.
fn saturate_exec(x: u64) -> (r: u32)
    ensures
        r == saturate(x as int),
{
    if x > u32::MAX as u64 {
        u32::MAX
    } else {
        x as u32
    }
}

impl ScaleConfig {
    /// The near-common-divisor modes: both sides are divided by their
    /// greatest common divisor, and that unit is multiplied by the integer
    /// that brings the chosen side nearest to `value`. `None` where the
    /// result does not fit in `u32`.
    fn snap_to_unit(&self, width: u32, height: u32) -> (r: Option<(u32, u32)>)
        requires
            self.mode == ScaleMode::NearCommonDivisorConsiderWidth || self.mode
                == ScaleMode::NearCommonDivisorConsiderHeight,
            width > 0,
            height > 0,
        ensures
            ({
                let p = plan(*self, width as int, height as int);
                &&& r is Some <==> (p.0 <= u32::MAX && p.1 <= u32::MAX)
                &&& r matches Some(x) ==> (x.0 as int, x.1 as int) == p
            }),
    {
        let g = gcd_nonzero(width, height);
        proof {
            lemma_gcd_divides(width as nat, height as nat);
        }
        let w_unit = width / g;
        let h_unit = height / g;
        proof {
            lemma_fundamental_div_mod(width as int, g as int);
            lemma_fundamental_div_mod(height as int, g as int);
            if w_unit == 0 || h_unit == 0 {
                lemma_mul_basics(g as int);
            }
        }
        let unit = if self.mode == ScaleMode::NearCommonDivisorConsiderWidth {
            w_unit
        } else {
            h_unit
        };
        let k = round_div_exec(self.value as u64, unit as u64);
        proof {
            lemma_round_div_at_most(self.value as int, unit as int);
        }
        let k = k as u32;
        let new_w = mul_wide(w_unit, k);
        let new_h = mul_wide(h_unit, k);
        if new_w > u32::MAX as u64 || new_h > u32::MAX as u64 {
            None
        } else {
            Some((new_w as u32, new_h as u32))
        }
    }

    fn apply_unrotated(&self, width: u32, height: u32) -> (r: (u32, u32))
        requires
            plan_fits(*self, width, height, false),
        ensures
            (r.0 as int, r.1 as int) == plan(*self, width as int, height as int),
    {
        let w = width as u64;
        let h = height as u64;
        let v = self.value as u64;
        let s = self.sub_value as u64;
        match self.mode {
            ScaleMode::NoScale => (width, height),
            ScaleMode::MaxWidth => {
                if width == 0 || height == 0 || width < self.value {
                    (width, height)
                } else {
                    let new_h = round_div_exec(mul_wide(height, self.value), w);
                    proof {
                        lemma_round_div_at_most(h * v, w as int);
                        lemma_mul_inequality(v as int, w as int, h as int);
                        lemma_mul_is_commutative(v as int, h as int);
                        lemma_div_is_ordered(2 * (h * v) + w, 2 * (w * h) + w, 2 * w as int);
                        assert(2 * (w * h) + w == h * (2 * w) + w) by (nonlinear_arith);
                        lemma_fundamental_div_mod_converse(h * (2 * w) + w, 2 * w as int, h as int, w as int);
                    }
                    (self.value, new_h as u32)
                }
            },
            ScaleMode::MaxHeight => {
                if width == 0 || height == 0 || height < self.value {
                    (width, height)
                } else {
                    let new_w = round_div_exec(mul_wide(width, self.value), h);
                    proof {
                        lemma_mul_inequality(v as int, h as int, w as int);
                        lemma_mul_is_commutative(v as int, w as int);
                        lemma_div_is_ordered(2 * (w * v) + h, 2 * (h * w) + h, 2 * h as int);
                        assert(2 * (h * w) + h == w * (2 * h) + h) by (nonlinear_arith);
                        lemma_fundamental_div_mod_converse(w * (2 * h) + h, 2 * h as int, w as int, h as int);
                    }
                    (new_w as u32, self.value)
                }
            },
            ScaleMode::Divide => {
                if self.value == 0 {
                    (width, height)
                } else {
                    (width / self.value, height / self.value)
                }
            },
            ScaleMode::NearCommonDivisorConsiderWidth | ScaleMode::NearCommonDivisorConsiderHeight => {
                match self.snap_to_unit(width, height) {
                    Some(r) => r,
                    None => (width, height),
                }
            },
            ScaleMode::ResizeAndCrop => {
                if width == 0 || height == 0 {
                    (width, height)
                } else if mul_wide(width, self.sub_value) > mul_wide(self.value, height) {
                    let new_w = round_div_exec(mul_wide(width, self.sub_value), h);
                    (saturate_exec(new_w), self.sub_value)
                } else {
                    let new_h = round_div_exec(mul_wide(height, self.value), w);
                    (self.value, saturate_exec(new_h))
                }
            },
        }
    }

    fn rotated(&self) -> (r: ScaleConfig)
        ensures
            r == rotated_config(*self),
    {
        let mode = match self.mode {
            ScaleMode::MaxWidth => ScaleMode::MaxHeight,
            ScaleMode::MaxHeight => ScaleMode::MaxWidth,
            ScaleMode::NearCommonDivisorConsiderWidth => ScaleMode::NearCommonDivisorConsiderHeight,
            ScaleMode::NearCommonDivisorConsiderHeight => ScaleMode::NearCommonDivisorConsiderWidth,
            other => other,
        };
        if self.mode == ScaleMode::ResizeAndCrop {
            ScaleConfig { mode, value: self.sub_value, sub_value: self.value }
        } else {
            ScaleConfig { mode, value: self.value, sub_value: self.sub_value }
        }
    }

    /// The target size of a stored `width` x `height` image; `is_vert_rot`
    /// says that the image is shown a quarter turn away from how it is stored.
    pub fn apply(&self, width: u32, height: u32, is_vert_rot: bool) -> (r: (u32, u32))
        requires
            plan_fits(*self, width, height, is_vert_rot),
        ensures
            (r.0 as int, r.1 as int) == planned_size(*self, width, height, is_vert_rot),
    {
        if !is_vert_rot {
            self.apply_unrotated(width, height)
        } else {
            self.rotated().apply_unrotated(width, height)
        }
    }

    /// `apply` where the inputs allow it, `None` where they do not: a zero
    /// side or an overflowing result under a near-common-divisor mode.
    pub fn checked_apply(&self, width: u32, height: u32, is_vert_rot: bool) -> (r: Option<
        (u32, u32),
    >)
        ensures
            r is Some <==> plan_fits(*self, width, height, is_vert_rot),
            r matches Some(x) ==> (x.0 as int, x.1 as int) == planned_size(
                *self,
                width,
                height,
                is_vert_rot,
            ),
    {
        let cfg = if is_vert_rot {
            self.rotated()
        } else {
            *self
        };
        match cfg.mode {
            ScaleMode::NearCommonDivisorConsiderWidth | ScaleMode::NearCommonDivisorConsiderHeight => {
                if width == 0 || height == 0 {
                    None
                } else {
                    cfg.snap_to_unit(width, height)
                }
            },
            _ => Some(cfg.apply_unrotated(width, height)),
        }
    }
}

impl ScaleConfig {
    /// Near 4K: the multiple of the aspect-ratio unit whose width is nearest to 4072.
    pub open spec fn spec_near_4k() -> ScaleConfig {
        ScaleConfig { mode: ScaleMode::NearCommonDivisorConsiderWidth, value: 4072, sub_value: 3054 }
    }
}

impl Default for ScaleConfig {
    /// Near 4K: the multiple of the aspect-ratio unit whose width is nearest to 4072.
    fn default() -> (r: ScaleConfig)
        ensures
            r == ScaleConfig::spec_near_4k(),
    {
        ScaleConfig { mode: ScaleMode::NearCommonDivisorConsiderWidth, value: 4072, sub_value: 3054 }
    }
}

/// Rotation law: applying a policy to an image stored a quarter turn from
/// upright gives the size that the policy gives on the upright image, with
/// width and height exchanged.
pub proof fn lemma_rotation_swaps_sides(cfg: ScaleConfig, w: u32, h: u32)
    requires
        w > 0,
        h > 0,
        plan_fits(cfg, w, h, false),
    ensures
        plan_fits(cfg, h, w, true),
        planned_size(cfg, h, w, true) == (planned_size(cfg, w, h, false).1, planned_size(
            cfg,
            w,
            h,
            false,
        ).0),
{
    let (wi, hi) = (w as int, h as int);
    let v = cfg.value as int;
    let s = cfg.sub_value as int;
    lemma_gcd_commutes(w as nat, h as nat);
    if cfg.mode == ScaleMode::ResizeAndCrop {
        if wi * s == v * hi {
            lemma_round_div_exact(v, hi);
            lemma_round_div_exact(s, wi);
            assert(wi * s == v * hi);
            assert(v * hi == hi * v) by (nonlinear_arith);
            assert(s * wi == wi * s) by (nonlinear_arith);
            assert(round_div(wi * s, hi) == v);
            assert(round_div(hi * v, wi) == s);
        }
        assert(hi * v == v * hi) by (nonlinear_arith);
        assert(s * wi == wi * s) by (nonlinear_arith);
    }
}

/// The near-common-divisor modes keep the aspect ratio exactly.
pub proof fn lemma_near_common_divisor_keeps_aspect(cfg: ScaleConfig, w: u32, h: u32)
    requires
        cfg.mode == ScaleMode::NearCommonDivisorConsiderWidth || cfg.mode
            == ScaleMode::NearCommonDivisorConsiderHeight,
        w > 0,
        h > 0,
    ensures
        planned_size(cfg, w, h, false).0 * h == planned_size(cfg, w, h, false).1 * w,
{
    lemma_gcd_divides(w as nat, h as nat);
    let g = spec_gcd(w as nat, h as nat) as int;
    lemma_fundamental_div_mod(w as int, g);
    lemma_fundamental_div_mod(h as int, g);
    let r = planned_size(cfg, w, h, false);
    let k = if cfg.mode == ScaleMode::NearCommonDivisorConsiderWidth {
        round_div(cfg.value as int, w as int / g)
    } else {
        round_div(cfg.value as int, h as int / g)
    };
    let (a, b) = (w as int / g, h as int / g);
    assert((a * k) * (g * b) == (b * k) * (g * a)) by (nonlinear_arith);
}

/// Resize-and-crop covers the target: the planned size is at least the target
/// size in both directions.
pub proof fn lemma_resize_and_crop_covers_target(cfg: ScaleConfig, w: u32, h: u32)
    requires
        cfg.mode == ScaleMode::ResizeAndCrop,
        w > 0,
        h > 0,
    ensures
        planned_size(cfg, w, h, false).0 >= cfg.value,
        planned_size(cfg, w, h, false).1 >= cfg.sub_value,
{
    let (wi, hi) = (w as int, h as int);
    let v = cfg.value as int;
    let s = cfg.sub_value as int;
    if wi * s > v * hi {
        assert(wi * s >= v * hi);
        lemma_round_div_at_least(wi * s, hi, v);
    } else {
        assert(hi * v >= s * wi) by (nonlinear_arith)
            requires
                wi * s <= v * hi,
        ;
        lemma_round_div_at_least(hi * v, wi, s);
    }
}

/// Keeping the source size changes nothing, however often it is applied.
pub proof fn lemma_no_scale_is_identity(cfg: ScaleConfig, w: u32, h: u32, is_vert_rot: bool)
    requires
        cfg.mode == ScaleMode::NoScale,
    ensures
        plan_fits(cfg, w, h, is_vert_rot),
        planned_size(cfg, w, h, is_vert_rot) == (w as int, h as int),
        planned_size(cfg, w, h, is_vert_rot) == planned_size(
            cfg,
            planned_size(cfg, w, h, is_vert_rot).0 as u32,
            planned_size(cfg, w, h, is_vert_rot).1 as u32,
            is_vert_rot,
        ),
{
}

} // verus!
