//! The library scanner's data model and the pure checks it applies to
//! files: which extensions are audio, and when a file fails format
//! validation.
use vstd::prelude::*;

verus! {

use vstd::string::StringSliceAdditionalSpecFns;
use vstd::string::StrSliceExecFns;
use crate::errors::MilkError;
use crate::errors::MilkResult;
use vstd::string::StringExecFns;

/// Track data model representing an audio file in the library.
#[derive(Debug, Clone, PartialEq, Eq, Hash)]
pub struct Track {
    pub id: String,
    pub file_path: String,
    pub file_name: String,
    pub extension: String,
}

/// Errors of the library scan.
#[derive(Debug)]
pub enum ScanError {
    IoError(String),
    InvalidPath,
}

/// Whether one character equals a lower-case target, ignoring ASCII case.
pub open spec fn char_lower_eq(a: char, b: char) -> bool {
    a == b || ('A' <= a && a <= 'Z' && 'a' <= b && b <= 'z' && a as int + 32 == b as int)
}

/// Whether a text equals a lower-case target, ignoring ASCII case.
pub open spec fn eq_ignore_ascii_case_seq(a: Seq<char>, b: Seq<char>) -> bool {
    a.len() == b.len() && forall|i: int| 0 <= i < a.len() ==> char_lower_eq(#[trigger] a[i], b[i])
}

pub(crate) fn matches_lower(s: &str, target: &str) -> (r: bool)
    requires
        vstd::string::is_ascii(target),
        forall|i: int| 0 <= i < target@.len() ==> !('A' <= #[trigger] target@[i] <= 'Z'),
    ensures
        r == eq_ignore_ascii_case_seq(s@, target@),
{
    broadcast use vstd::string::is_ascii_spec_bytes;

    if !s.is_ascii() {
        proof {
            if eq_ignore_ascii_case_seq(s@, target@) {
                assert forall|i: int| 0 <= i < s@.len() implies '\0' <= #[trigger] s@[i]
                    <= '\u{7f}' by {
                    assert(char_lower_eq(s@[i], target@[i]));
                    assert('\0' <= target@[i] <= '\u{7f}');
                }
                assert(vstd::utf8::is_ascii_chars(s@));
                assert(false);
            }
        }
        return false;
    }
    let sb = s.as_bytes();
    let tb = target.as_bytes();
    proof {
        assert(s.spec_bytes() =~= Seq::new(s@.len(), |j: int| s@[j] as u8));
        assert(target.spec_bytes() =~= Seq::new(target@.len(), |j: int| target@[j] as u8));
    }
    if sb.len() != tb.len() {
        return false;
    }
    let n = sb.len();
    let mut i: usize = 0;
    while i < n
        invariant
            0 <= i <= n,
            n == s@.len(),
            n == target@.len(),
            s.is_ascii(),
            vstd::string::is_ascii(target),
            forall|j: int| 0 <= j < target@.len() ==> !('A' <= #[trigger] target@[j] <= 'Z'),
            forall|j: int| 0 <= j < i ==> char_lower_eq(#[trigger] s@[j], target@[j]),
        decreases n - i,
    {
        let a = s.get_ascii(i);
        let b = target.get_ascii(i);
        let low = if 65 <= a && a <= 90 {
            a + 32
        } else {
            a
        };
        if low != b {
            proof {
                assert(a == s@[i as int] as u8);
                assert(b == target@[i as int] as u8);
                assert('\0' <= s@[i as int] <= '\u{7f}');
                assert('\0' <= target@[i as int] <= '\u{7f}');
                assert(!char_lower_eq(s@[i as int], target@[i as int]));
            }
            return false;
        }
        proof {
            assert(a == s@[i as int] as u8);
            assert(b == target@[i as int] as u8);
            assert('\0' <= s@[i as int] <= '\u{7f}');
            assert('\0' <= target@[i as int] <= '\u{7f}');
            assert(char_lower_eq(s@[i as int], target@[i as int]));
        }
        i += 1;
    }
    true
}

/// LibraryScanner holds the pure part of directory scanning: the test of
/// which file extensions are audio files.
pub struct LibraryScanner;

impl LibraryScanner {
    /// Check if a file extension is a supported audio format (mp3, flac or
    /// wav, in any ASCII case).
    pub fn is_supported_extension(extension: &str) -> (r: bool)
        ensures
            r == (eq_ignore_ascii_case_seq(extension@, "mp3"@) || eq_ignore_ascii_case_seq(
                extension@,
                "flac"@,
            ) || eq_ignore_ascii_case_seq(extension@, "wav"@)),
    {
        proof {
            reveal_strlit("mp3");
            reveal_strlit("flac");
            reveal_strlit("wav");
        }
        matches_lower(extension, "mp3") || matches_lower(extension, "flac") || matches_lower(
            extension,
            "wav",
        )
    }

    /// The format-validation verdict for a file, from its extension (if it
    /// has one) and whether it exists on disk: an unsupported or missing
    /// extension is an unsupported format, a missing file a decode error.
    pub fn validate_audio_format(extension: Option<&str>, file_exists: bool) -> (r: MilkResult<()>)
        ensures
            extension is None ==> (r matches Err(e) && e matches MilkError::UnsupportedFormat(_)),
            extension matches Some(ext) ==> (!(eq_ignore_ascii_case_seq(ext@, "mp3"@)
                || eq_ignore_ascii_case_seq(ext@, "flac"@) || eq_ignore_ascii_case_seq(
                ext@,
                "wav"@,
            )) ==> (r matches Err(e) && e matches MilkError::UnsupportedFormat(m) && m@ == ext@)),
            extension matches Some(ext) ==> ((eq_ignore_ascii_case_seq(ext@, "mp3"@)
                || eq_ignore_ascii_case_seq(ext@, "flac"@) || eq_ignore_ascii_case_seq(
                ext@,
                "wav"@,
            )) && !file_exists ==> (r matches Err(e) && e matches MilkError::DecodeError(_))),
            extension matches Some(ext) ==> ((eq_ignore_ascii_case_seq(ext@, "mp3"@)
                || eq_ignore_ascii_case_seq(ext@, "flac"@) || eq_ignore_ascii_case_seq(
                ext@,
                "wav"@,
            )) && file_exists ==> r is Ok),
    {
        let ext = match extension {
            Some(e) => e,
            None => {
                return Err(
                    MilkError::UnsupportedFormat(
                        String::from_str("unknown"),
                    ),
                );
            },
        };
        if !Self::is_supported_extension(ext) {
            return Err(MilkError::UnsupportedFormat(String::from_str(ext)));
        }
        if !file_exists {
            return Err(
                MilkError::DecodeError(
                    String::from_str("File does not exist"),
                ),
            );
        }
        Ok(())
    }
}

} // verus!
