use vstd::prelude::*;

use crate::player::Track;

verus! {

/// What `str::to_lowercase` gives for the characters `s`.
pub uninterp spec fn lower_of(s: Seq<char>) -> Seq<char>;

/// Relies on `str::to_lowercase`: its result depends on the characters of
/// its argument alone.
#[verifier::external_body]
fn lowercase(s: &str) -> (r: String)
    ensures
        r@ == lower_of(s@),
{
    s.to_lowercase()
}

/// The file extensions, in lower case, of the formats the catalog accepts.
pub open spec fn is_supported_ext(ext: Seq<char>) -> bool {
    ||| ext == seq!['m', 'p', '3']
    ||| ext == seq!['f', 'l', 'a', 'c']
    ||| ext == seq!['w', 'a', 'v']
    ||| ext == seq!['a', 'a', 'c']
    ||| ext == seq!['m', '4', 'a']
}

/// Whether `lowered`, an extension already in lower case, names an accepted
/// format.
pub fn is_supported_extension(lowered: &str) -> (r: bool)
    ensures
        r == is_supported_ext(lowered@),
{
    let e = String::from_str(lowered);
    let mp3 = String::from_str("mp3");
    let flac = String::from_str("flac");
    let wav = String::from_str("wav");
    let aac = String::from_str("aac");
    let m4a = String::from_str("m4a");
    proof {
        reveal_strlit("mp3");
        reveal_strlit("flac");
        reveal_strlit("wav");
        reveal_strlit("aac");
        reveal_strlit("m4a");
        assert(mp3@ =~= seq!['m', 'p', '3']);
        assert(flac@ =~= seq!['f', 'l', 'a', 'c']);
        assert(wav@ =~= seq!['w', 'a', 'v']);
        assert(aac@ =~= seq!['a', 'a', 'c']);
        assert(m4a@ =~= seq!['m', '4', 'a']);
    }
    e == mp3 || e == flac || e == wav || e == aac || e == m4a
}

/// The extension `raw` in lower case, when it names an accepted format,
/// compared without regard to case.
pub fn accepted_extension(raw: &str) -> (r: Option<String>)
    ensures
        match r {
            Some(e) => e@ == lower_of(raw@) && is_supported_ext(lower_of(raw@)),
            None => !is_supported_ext(lower_of(raw@)),
        },
{
    let lowered = lowercase(raw);
    if is_supported_extension(lowered.as_str()) {
        Some(lowered)
    } else {
        None
    }
}

/// Duration in whole seconds of a stream of `n_frames` frames at
/// `sample_rate` frames per second, truncated; zero when either is unknown
/// or the rate is zero.
pub open spec fn duration_of(n_frames: Option<u64>, sample_rate: Option<u32>) -> u64 {
    match (n_frames, sample_rate) {
        (Some(frames), Some(rate)) => if rate > 0 {
            (frames / (rate as u64)) as u64
        } else {
            0
        },
        _ => 0,
    }
}

pub fn track_duration_secs(n_frames: Option<u64>, sample_rate: Option<u32>) -> (r: u64)
    ensures
        r == duration_of(n_frames, sample_rate),
{
    match (n_frames, sample_rate) {
        (Some(frames), Some(rate)) => if rate > 0 {
            frames / (rate as u64)
        } else {
            0
        },
        _ => 0,
    }
}

/// Name shown for a file whose stem cannot be read.
pub open spec fn unknown_name() -> Seq<char> {
    seq!['U', 'n', 'k', 'n', 'o', 'w', 'n']
}

/// The catalog entry of a probed file: its stem (or "Unknown" when the stem
/// cannot be read), its accepted extension and the duration that the probe
/// reported.
pub fn catalog_entry(stem: Option<&str>, ext: String, n_frames: Option<u64>, sample_rate: Option<u32>) -> (r: Track)
    ensures
        r.name@ == match stem {
            Some(s) => s@,
            None => unknown_name(),
        },
        r.ext == ext,
        r.duration_secs == duration_of(n_frames, sample_rate),
{
    let name = match stem {
        Some(s) => String::from_str(s),
        None => {
            proof {
                reveal_strlit("Unknown");
            }
            let n = String::from_str("Unknown");
            assert(n@ =~= unknown_name());
            n
        },
    };
    Track::new(name, ext, track_duration_secs(n_frames, sample_rate))
}

} // verus!
