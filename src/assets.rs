use vstd::prelude::*;

verus! {

/// A font or other asset that the build downloads, checks and unpacks.
#[derive(Debug, Clone, Copy)]
pub struct BuildAsset {
    /// Where the asset is downloaded from.
    pub url: &'static str,
    /// The MD5 digest that the download must have, in lower-case hex.
    pub expected_md5: &'static str,
    /// The name of the downloaded file; by default the last part of the URL.
    pub file_name: Option<&'static str>,
    /// Whether the download is a ZIP archive to unpack.
    pub unzip: bool,
    /// The file to take out of the archive.
    pub extract_file_name: Option<&'static str>,
    /// The environment variable through which the build hands over the path.
    pub env_key: &'static str,
}

} // verus!
