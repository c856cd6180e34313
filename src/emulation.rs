//! Resolving the emulation options of a request: labels are compared after
//! dropping everything but ASCII letters and digits and folding case.
use vstd::prelude::*;

use vstd::string::StrSliceExecFns;

use crate::error::LabelError;

verus! {

pub open spec fn is_ascii_alnum(c: char) -> bool {
    ('0' <= c && c <= '9') || ('a' <= c && c <= 'z') || ('A' <= c && c <= 'Z')
}

pub open spec fn ascii_lower(c: char) -> char {
    if 'A' <= c && c <= 'Z' {
        ((c as u8) + 32) as char
    } else {
        c
    }
}

/// A label with everything but ASCII letters and digits dropped and the
/// letters in lower case.
pub open spec fn normalized(s: Seq<char>) -> Seq<char>
    decreases s.len(),
{
    if s.len() == 0 {
        Seq::empty()
    } else {
        let rest = normalized(s.drop_last());
        if is_ascii_alnum(s.last()) {
            rest.push(ascii_lower(s.last()))
        } else {
            rest
        }
    }
}

/// Relies on `FromIterator<char> for String`: the string holds the
/// characters in order.
#[verifier::external_body]
fn string_from_chars(chars: &Vec<char>) -> (r: String)
    ensures
        r@ == chars@,
{
    chars.iter().collect()
}

fn lower_alnum(c: char) -> (r: char)
    requires
        is_ascii_alnum(c),
    ensures
        r == ascii_lower(c),
{
    if 'A' <= c && c <= 'Z' {
        ((c as u8) + 32) as char
    } else {
        c
    }
}

/// The characters of [`normalize_label`].
pub fn normalized_chars(value: &str) -> (r: Vec<char>)
    ensures
        r@ == normalized(value@),
{
    let n = value.unicode_len();
    let mut out: Vec<char> = Vec::new();
    let mut i: usize = 0;
    while i < n
        invariant
            n == value@.len(),
            i <= n,
            out@ == normalized(value@.subrange(0, i as int)),
        decreases n - i,
    {
        let c = value.get_char(i);
        assert(value@.subrange(0, i + 1).drop_last() =~= value@.subrange(0, i as int));
        if ('0' <= c && c <= '9') || ('a' <= c && c <= 'z') || ('A' <= c && c <= 'Z') {
            out.push(lower_alnum(c));
        }
        i = i + 1;
    }
    assert(value@.subrange(0, n as int) =~= value@);
    out
}

/// The label with everything but ASCII letters and digits dropped and the
/// letters in lower case.
pub fn normalize_label(value: &str) -> (r: String)
    ensures
        r@ == normalized(value@),
{
    let chars = normalized_chars(value);
    string_from_chars(&chars)
}


/// Relies on `str::trim`: the result depends on the characters alone.
pub uninterp spec fn trimmed(s: Seq<char>) -> Seq<char>;

/// Relies on `str::trim`: leading and trailing white space removed.
#[verifier::external_body]
fn trim(s: &str) -> (r: &str)
    ensures
        r@ == trimmed(s@),
{
    s.trim()
}

/// The operating systems that an emulation can claim.
#[derive(Clone, Copy, Debug, PartialEq, Eq, Structural)]
pub enum EmulationOs {
    Windows,
    MacOS,
    Linux,
    Android,
    IOS,
}

/// The system that a normalized label names: the name of a system, or one of
/// the aliases mac, osx, win, win32, win64, iphone and ipad.
pub open spec fn os_named(n: Seq<char>) -> Option<EmulationOs> {
    if n == "mac"@ || n == "osx"@ || n == "macos"@ {
        Some(EmulationOs::MacOS)
    } else if n == "win"@ || n == "win32"@ || n == "win64"@ || n == "windows"@ {
        Some(EmulationOs::Windows)
    } else if n == "iphone"@ || n == "ipad"@ || n == "ios"@ {
        Some(EmulationOs::IOS)
    } else if n == "linux"@ {
        Some(EmulationOs::Linux)
    } else if n == "android"@ {
        Some(EmulationOs::Android)
    } else {
        None
    }
}

/// The result of parsing an already trimmed system label.
pub open spec fn os_result(t: Seq<char>) -> Result<EmulationOs, LabelError> {
    if t.len() == 0 {
        Err(LabelError::Empty)
    } else {
        match os_named(normalized(t)) {
            Some(os) => Ok(os),
            None => Err(LabelError::Unsupported),
        }
    }
}

pub(crate) fn is_label(chars: &Vec<char>, lit: &str) -> (r: bool)
    ensures
        r == (chars@ == lit@),
{
    let n = lit.unicode_len();
    if chars.len() != n {
        return false;
    }
    let mut i: usize = 0;
    while i < n
        invariant
            n == lit@.len(),
            chars@.len() == n,
            i <= n,
            forall|j: int| 0 <= j < i ==> chars@[j] == lit@[j],
        decreases n - i,
    {
        if chars[i] != lit.get_char(i) {
            return false;
        }
        i = i + 1;
    }
    assert(chars@ =~= lit@);
    true
}

fn same_chars(a: &Vec<char>, b: &Vec<char>) -> (r: bool)
    ensures
        r == (a@ == b@),
{
    if a.len() != b.len() {
        return false;
    }
    let mut i: usize = 0;
    while i < a.len()
        invariant
            a@.len() == b@.len(),
            i <= a@.len(),
            forall|j: int| 0 <= j < i ==> a@[j] == b@[j],
        decreases a@.len() - i,
    {
        if a[i] != b[i] {
            return false;
        }
        i = i + 1;
    }
    assert(a@ =~= b@);
    true
}

/// Parses a system label that has already been trimmed.
pub fn os_from_trimmed(value: &str) -> (r: Result<EmulationOs, LabelError>)
    ensures
        r == os_result(value@),
{
    if value.unicode_len() == 0 {
        return Err(LabelError::Empty);
    }
    let n = normalized_chars(value);
    if is_label(&n, "mac") || is_label(&n, "osx") || is_label(&n, "macos") {
        Ok(EmulationOs::MacOS)
    } else if is_label(&n, "win") || is_label(&n, "win32") || is_label(&n, "win64") || is_label(
        &n,
        "windows",
    ) {
        Ok(EmulationOs::Windows)
    } else if is_label(&n, "iphone") || is_label(&n, "ipad") || is_label(&n, "ios") {
        Ok(EmulationOs::IOS)
    } else if is_label(&n, "linux") {
        Ok(EmulationOs::Linux)
    } else if is_label(&n, "android") {
        Ok(EmulationOs::Android)
    } else {
        Err(LabelError::Unsupported)
    }
}

/// Parses a system label, ignoring case, surrounding white space and any
/// character other than an ASCII letter or digit.
pub fn parse_emulation_os(value: &str) -> (r: Result<EmulationOs, LabelError>)
    ensures
        r == os_result(trimmed(value@)),
{
    os_from_trimmed(trim(value))
}

/// Whether candidate `i` has the normalized label `n`.
pub open spec fn labels_match(n: Seq<char>, candidates: Seq<String>, i: int) -> bool {
    normalized(candidates[i]@) == n
}

/// The index of the first candidate whose normalized label is `n`.
pub open spec fn first_match(n: Seq<char>, candidates: Seq<String>) -> Option<int>
    decreases candidates.len(),
{
    if candidates.len() == 0 {
        None
    } else {
        match first_match(n, candidates.drop_last()) {
            Some(i) => Some(i),
            None => if labels_match(n, candidates, candidates.len() - 1) {
                Some(candidates.len() - 1)
            } else {
                None
            },
        }
    }
}

/// The result of looking up an already trimmed preset label among the
/// candidate labels.
pub open spec fn preset_result(t: Seq<char>, candidates: Seq<String>) -> Result<usize, LabelError> {
    if t.len() == 0 {
        Err(LabelError::Empty)
    } else {
        match first_match(normalized(t), candidates) {
            Some(i) => Ok(i as usize),
            None => Err(LabelError::Unsupported),
        }
    }
}

/// Looks up an already trimmed preset label among the candidate labels.
pub fn preset_from_trimmed(value: &str, candidates: &Vec<String>) -> (r: Result<usize, LabelError>)
    ensures
        r == preset_result(value@, candidates@),
{
    if value.unicode_len() == 0 {
        return Err(LabelError::Empty);
    }
    let n = normalized_chars(value);
    let mut i: usize = 0;
    while i < candidates.len()
        invariant
            value@.len() > 0,
            n@ == normalized(value@),
            i <= candidates@.len(),
            first_match(n@, candidates@.subrange(0, i as int)) is None,
        decreases candidates@.len() - i,
    {
        let c = normalized_chars(candidates[i].as_str());
        let ghost sub = candidates@.subrange(0, i as int + 1);
        assert(sub.drop_last() =~= candidates@.subrange(0, i as int));
        assert(sub[i as int] == candidates@[i as int]);
        if same_chars(&c, &n) {
            assert(first_match(n@, sub) == Some(i as int));
            proof {
                lemma_first_match_prefix(n@, candidates@, i as int + 1);
            }
            return Ok(i);
        }
        i = i + 1;
    }
    assert(candidates@.subrange(0, candidates@.len() as int) =~= candidates@);
    Err(LabelError::Unsupported)
}

proof fn lemma_first_match_prefix(n: Seq<char>, candidates: Seq<String>, k: int)
    requires
        0 <= k <= candidates.len(),
        first_match(n, candidates.subrange(0, k)) is Some,
    ensures
        first_match(n, candidates) == first_match(n, candidates.subrange(0, k)),
    decreases candidates.len() - k,
{
    if k < candidates.len() {
        let next = candidates.subrange(0, k + 1);
        assert(next.drop_last() =~= candidates.subrange(0, k));
        lemma_first_match_prefix(n, candidates, k + 1);
    } else {
        assert(candidates.subrange(0, k) =~= candidates);
    }
}

/// Looks up a preset label among the candidate labels, ignoring case,
/// surrounding white space and any character other than an ASCII letter or
/// digit: the index of the first candidate that matches.
pub fn parse_emulation_preset(value: &str, candidates: &Vec<String>) -> (r: Result<usize, LabelError>)
    ensures
        r == preset_result(trimmed(value@), candidates@),
{
    preset_from_trimmed(trim(value), candidates)
}

/// Emulation settings as a caller gives them.
#[derive(Clone, Debug)]
pub struct EmulationOptions {
    pub preset: Option<String>,
    pub os: Option<String>,
    pub skip_http2: Option<bool>,
    pub skip_headers: Option<bool>,
}

/// Resolved emulation settings: the index of the chosen preset among the
/// candidate labels and the chosen system, `None` where the default is meant.
#[derive(Clone, Copy, Debug, PartialEq, Eq, Structural)]
pub struct EmulationChoice {
    pub preset: Option<usize>,
    pub os: Option<EmulationOs>,
    pub skip_http2: bool,
    pub skip_headers: bool,
}

/// The options that a bare preset label stands for.
pub fn preset_options(preset: String) -> (r: EmulationOptions)
    ensures
        r.preset == Some(preset),
        r.os is None,
        r.skip_http2 is None,
        r.skip_headers is None,
{
    EmulationOptions { preset: Some(preset), os: None, skip_http2: None, skip_headers: None }
}

/// Which option of [`EmulationOptions`] was refused, and why.
#[derive(Clone, Copy, Debug, PartialEq, Eq, Structural)]
pub enum EmulationError {
    Preset(LabelError),
    Os(LabelError),
}

/// Resolved options: see [`build_emulation`].
pub open spec fn emulation_result(o: EmulationOptions, presets: Seq<String>) -> Result<
    EmulationChoice,
    EmulationError,
> {
    let preset: Result<Option<usize>, LabelError> = match o.preset {
        Some(p) => match preset_result(trimmed(p@), presets) {
            Ok(i) => Ok(Some(i)),
            Err(e) => Err(e),
        },
        None => Ok(None),
    };
    let os: Result<Option<EmulationOs>, LabelError> = match o.os {
        Some(x) => match os_result(trimmed(x@)) {
            Ok(v) => Ok(Some(v)),
            Err(e) => Err(e),
        },
        None => Ok(None),
    };
    match preset {
        Err(e) => Err(EmulationError::Preset(e)),
        Ok(p) => match os {
            Err(e) => Err(EmulationError::Os(e)),
            Ok(v) => Ok(
                EmulationChoice {
                    preset: p,
                    os: v,
                    skip_http2: o.skip_http2 == Some(true),
                    skip_headers: o.skip_headers == Some(true),
                },
            ),
        },
    }
}

/// Resolves emulation options against the candidate preset labels. The preset
/// is parsed first, then the system; an absent flag is `false`.
pub fn build_emulation(options: &EmulationOptions, presets: &Vec<String>) -> (r: Result<
    EmulationChoice,
    EmulationError,
>)
    ensures
        r == emulation_result(*options, presets@),
{
    let preset = match &options.preset {
        Some(p) => match parse_emulation_preset(p.as_str(), presets) {
            Ok(i) => Some(i),
            Err(e) => return Err(EmulationError::Preset(e)),
        },
        None => None,
    };
    let os = match &options.os {
        Some(o) => match parse_emulation_os(o.as_str()) {
            Ok(v) => Some(v),
            Err(e) => return Err(EmulationError::Os(e)),
        },
        None => None,
    };
    let skip_http2 = match options.skip_http2 {
        Some(b) => b,
        None => false,
    };
    let skip_headers = match options.skip_headers {
        Some(b) => b,
        None => false,
    };
    Ok(EmulationChoice { preset, os, skip_http2, skip_headers })
}

} // verus!
