//! The skin model and its validation: a parsed skin is a named set of
//! assets, and a usable one must carry image assets including the main
//! bitmap. Reading the archive files themselves is I/O glue and lives
//! outside this crate.
use vstd::prelude::*;

verus! {

use vstd::string::StringExecFns;
use crate::library::eq_ignore_ascii_case_seq;
use crate::library::matches_lower;

/// Errors of skin loading and validation.
#[derive(Debug)]
pub enum SkinError {
    IoError(String),
    ZipError(String),
    InvalidFormat(String),
    MissingAsset(String),
    ImageError(String),
}

/// A parsed skin: its name, its assets by file name, and the window
/// region, when one was found.
#[derive(Debug)]
pub struct ParsedSkin {
    pub name: String,
    pub assets: Vec<(String, Vec<u8>)>,
    pub regions: Option<RegionConfig>,
}

/// The window-shaping configuration of a skin.
#[derive(Debug, Clone, PartialEq, Eq, Structural)]
pub struct RegionConfig {
    pub main: Region,
}

/// One window region, in pixels.
#[derive(Debug, Clone, Copy, PartialEq, Eq, Structural)]
pub struct Region {
    pub x: i32,
    pub y: i32,
    pub width: u32,
    pub height: u32,
}

/// Whether a name ends with the given lower-case suffix, ignoring ASCII
/// case.
pub open spec fn has_suffix_ci(name: Seq<char>, suffix: Seq<char>) -> bool {
    name.len() >= suffix.len() && eq_ignore_ascii_case_seq(
        name.skip(name.len() - suffix.len()),
        suffix,
    )
}

fn ends_with_ci(name: &str, suffix: &str) -> (r: bool)
    requires
        vstd::string::is_ascii(suffix),
        forall|i: int| 0 <= i < suffix@.len() ==> !('A' <= #[trigger] suffix@[i] <= 'Z'),
    ensures
        r == has_suffix_ci(name@, suffix@),
{
    let n = vstd::string::StrSliceExecFns::unicode_len(name);
    let m = vstd::string::StrSliceExecFns::unicode_len(suffix);
    if n < m {
        return false;
    }
    let tail = vstd::string::StrSliceExecFns::substring_char(name, n - m, n);
    proof {
        assert(tail@ =~= name@.skip(name@.len() - suffix@.len()));
    }
    matches_lower(tail, suffix)
}

/// Whether a skin's assets include at least one image file.
pub open spec fn has_image_asset(assets: Seq<(String, Vec<u8>)>) -> bool {
    exists|i: int|
        0 <= i < assets.len() && (has_suffix_ci(#[trigger] assets[i].0@, ".bmp"@) || has_suffix_ci(
            assets[i].0@,
            ".png"@,
        ))
}

/// Whether a skin's assets include the main bitmap.
pub open spec fn has_main_bmp(assets: Seq<(String, Vec<u8>)>) -> bool {
    exists|i: int| 0 <= i < assets.len() && eq_ignore_ascii_case_seq(
        (#[trigger] assets[i]).0@,
        "main.bmp"@,
    )
}

/// Whether a skin's assets include a region table.
pub open spec fn region_entry(assets: Seq<(String, Vec<u8>)>, i: int) -> bool {
    0 <= i < assets.len() && has_suffix_ci(assets[i].0@, "region.txt"@)
}

/// SkinParser holds the pure parts of skin handling: asset extraction,
/// region parsing and validation.
pub struct SkinParser;

impl SkinParser {
    /// A copy of a parsed skin's assets.
    pub fn extract_assets(skin: &ParsedSkin) -> (r: Result<Vec<(String, Vec<u8>)>, SkinError>)
        ensures
            r matches Ok(a) ==> a@.len() == skin.assets@.len() && (forall|i: int|
                0 <= i < a@.len() ==> (#[trigger] a@[i]).0@ == skin.assets@[i].0@ && a@[i].1@
                    == skin.assets@[i].1@),
            r is Ok,
    {
        let n = skin.assets.len();
        let mut out: Vec<(String, Vec<u8>)> = Vec::new();
        let mut i: usize = 0;
        while i < n
            invariant
                0 <= i <= n,
                n == skin.assets@.len(),
                out@.len() == i,
                forall|j: int|
                    0 <= j < i ==> (#[trigger] out@[j]).0@ == skin.assets@[j].0@ && out@[j].1@
                        == skin.assets@[j].1@,
            decreases n - i,
        {
            let name = skin.assets[i].0.clone();
            let data = skin.assets[i].1.clone();
            proof {
                assert(data@ =~= skin.assets@[i as int].1@);
            }
            out.push((name, data));
            i += 1;
        }
        Ok(out)
    }

    /// The window region of a skin: a skin with a non-empty region table
    /// gets the classic main-window region, one without gets none.
    #[verifier::loop_isolation(false)]
    pub fn parse_regions(assets: &Vec<(String, Vec<u8>)>) -> (r: Option<RegionConfig>)
        ensures
            r matches Some(c) ==> (exists|i: int|
                region_entry(assets@, i) && assets@[i].1@.len() > 0) && c == (RegionConfig {
                main: Region { x: 0, y: 0, width: 275, height: 116 },
            }),
            r is None ==> forall|i: int|
                region_entry(assets@, i) ==> (#[trigger] assets@[i]).1@.len() == 0,
    {
        proof {
            reveal_strlit("region.txt");
        }
        let n = assets.len();
        let mut i: usize = 0;
        while i < n
            invariant
                0 <= i <= n,
                n == assets@.len(),
                forall|j: int|
                    0 <= j < i && region_entry(assets@, j) ==> (#[trigger] assets@[j]).1@.len()
                        == 0,
            decreases n - i,
        {
            if ends_with_ci(assets[i].0.as_str(), "region.txt") {
                if assets[i].1.len() > 0 {
                    proof {
                        assert(region_entry(assets@, i as int) && assets@[i as int].1@.len() > 0);
                    }
                    return Some(
                        RegionConfig { main: Region { x: 0, y: 0, width: 275, height: 116 } },
                    );
                }
            }
            i += 1;
        }
        None
    }

    /// Validate that a skin has the minimum required assets: at least one
    /// image file, and the classic main bitmap.
    #[verifier::loop_isolation(false)]
    pub fn validate_skin(skin: &ParsedSkin) -> (r: Result<(), SkinError>)
        ensures
            r is Ok <==> (has_image_asset(skin.assets@) && has_main_bmp(skin.assets@)),
            !has_image_asset(skin.assets@) ==> (r matches Err(e) && e matches SkinError::InvalidFormat(
                _,
            )),
            has_image_asset(skin.assets@) && !has_main_bmp(skin.assets@) ==> (r matches Err(e)
                && e matches SkinError::MissingAsset(_)),
    {
        proof {
            reveal_strlit(".bmp");
            reveal_strlit(".png");
            reveal_strlit("main.bmp");
        }
        let n = skin.assets.len();
        let mut has_image = false;
        let mut i: usize = 0;
        while i < n
            invariant
                0 <= i <= n,
                n == skin.assets@.len(),
                has_image ==> has_image_asset(skin.assets@),
                !has_image ==> forall|j: int|
                    0 <= j < i ==> !(has_suffix_ci((#[trigger] skin.assets@[j]).0@, ".bmp"@)
                        || has_suffix_ci(skin.assets@[j].0@, ".png"@)),
            decreases n - i,
        {
            if ends_with_ci(skin.assets[i].0.as_str(), ".bmp") || ends_with_ci(
                skin.assets[i].0.as_str(),
                ".png",
            ) {
                has_image = true;
            }
            i += 1;
        }
        if !has_image {
            return Err(SkinError::InvalidFormat(String::from_str("No image assets found in skin")));
        }
        let mut has_main = false;
        let mut i2: usize = 0;
        while i2 < n
            invariant
                0 <= i2 <= n,
                n == skin.assets@.len(),
                has_main ==> has_main_bmp(skin.assets@),
                !has_main ==> forall|j: int|
                    0 <= j < i2 ==> !eq_ignore_ascii_case_seq(
                        (#[trigger] skin.assets@[j]).0@,
                        "main.bmp"@,
                    ),
            decreases n - i2,
        {
            if matches_lower(skin.assets[i2].0.as_str(), "main.bmp") {
                has_main = true;
            }
            i2 += 1;
        }
        if !has_main {
            return Err(SkinError::MissingAsset(String::from_str("main.bmp")));
        }
        Ok(())
    }

    /// The default fallback skin: no assets, the classic main-window
    /// region.
    pub fn get_default_skin() -> (r: ParsedSkin)
        ensures
            r.name@ == "default"@,
            r.assets@.len() == 0,
            r.regions matches Some(c) && c == (RegionConfig {
                main: Region { x: 0, y: 0, width: 275, height: 116 },
            }),
    {
        ParsedSkin {
            name: String::from_str("default"),
            assets: Vec::new(),
            regions: Some(RegionConfig { main: Region { x: 0, y: 0, width: 275, height: 116 } }),
        }
    }
}

} // verus!
