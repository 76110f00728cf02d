use vstd::prelude::*;

use crate::error::Error;

verus! {

/// The closed set of document formats the library reads and writes.
#[derive(Clone, Copy, Debug, PartialEq, Eq, Structural)]
pub enum Format {
    Json,
    Yaml,
    Toml,
}

/// ASCII lower-casing of one character; other characters are kept.
pub open spec fn lower_char(c: char) -> char {
    if 'A' <= c && c <= 'Z' {
        (((c as u32) + 32) as u8) as char
    } else {
        c
    }
}

/// ASCII lower-casing of a whole string.
pub open spec fn lower_seq(s: Seq<char>) -> Seq<char> {
    s.map_values(|c: char| lower_char(c))
}

/// The format a name denotes, compared without regard to ASCII case.
pub open spec fn format_of_name(s: Seq<char>) -> Option<Format> {
    let l = lower_seq(s);
    if l == seq!['j', 's', 'o', 'n'] {
        Some(Format::Json)
    } else if l == seq!['y', 'a', 'm', 'l'] || l == seq!['y', 'm', 'l'] {
        Some(Format::Yaml)
    } else if l == seq!['t', 'o', 'm', 'l'] {
        Some(Format::Toml)
    } else {
        None
    }
}

/// Index of the last `.` in `s`, if there is one.
pub open spec fn last_dot(s: Seq<char>) -> Option<int>
    decreases s.len(),
{
    if s.len() == 0 {
        None
    } else if s.last() == '.' {
        Some(s.len() - 1)
    } else {
        last_dot(s.drop_last())
    }
}

/// The extension of a path: what follows its last `.`; none when the path
/// holds no `.`.
pub open spec fn extension_of(s: Seq<char>) -> Option<Seq<char>> {
    match last_dot(s) {
        Some(i) => Some(s.subrange(i + 1, s.len() as int)),
        None => None,
    }
}

/// The format a path's extension denotes.
pub open spec fn format_of_path(s: Seq<char>) -> Option<Format> {
    match extension_of(s) {
        Some(e) => format_of_name(e),
        None => None,
    }
}

proof fn lemma_last_dot_bounds(s: Seq<char>)
    ensures
        match last_dot(s) {
            Some(i) => 0 <= i < s.len() && s[i] == '.' && forall|j: int| i < j < s.len() ==> s[j] != '.',
            None => forall|j: int| 0 <= j < s.len() ==> s[j] != '.',
        },
    decreases s.len(),
{
    if s.len() > 0 && s.last() != '.' {
        lemma_last_dot_bounds(s.drop_last());
        assert forall|j: int| 0 <= j < s.len() - 1 implies s.drop_last()[j] == s[j] by {}
    }
}

fn lower_at(s: &str, i: usize) -> (c: char)
    requires
        i < s@.len(),
    ensures
        c == lower_char(s@[i as int]),
{
    let c = s.get_char(i);
    if 'A' <= c && c <= 'Z' {
        (((c as u32) + 32) as u8) as char
    } else {
        c
    }
}

/// Whether the characters of `s` in `from..to`, lower-cased, spell `w`.
fn spells(s: &str, from: usize, to: usize, w: &str) -> (r: bool)
    requires
        from <= to <= s@.len(),
    ensures
        r == (lower_seq(s@.subrange(from as int, to as int)) == w@),
{
    let n = w.unicode_len();
    let ghost sub = s@.subrange(from as int, to as int);
    if to - from != n {
        assert(lower_seq(sub).len() != w@.len());
        return false;
    }
    let mut k: usize = 0;
    while k < n
        invariant
            from <= to <= s@.len(),
            n == w@.len(),
            to - from == n,
            sub == s@.subrange(from as int, to as int),
            0 <= k <= n,
            forall|j: int| 0 <= j < k ==> lower_char(sub[j]) == w@[j],
        decreases n - k,
    {
        if lower_at(s, from + k) != w.get_char(k) {
            assert(lower_seq(sub)[k as int] != w@[k as int]);
            return false;
        }
        k = k + 1;
    }
    assert(lower_seq(sub) =~= w@);
    true
}

/// The format that the characters of `s` in `from..to` name.
fn format_of_range(s: &str, from: usize, to: usize) -> (r: Option<Format>)
    requires
        from <= to <= s@.len(),
    ensures
        r == format_of_name(s@.subrange(from as int, to as int)),
{
    proof {
        reveal_strlit("json");
        reveal_strlit("yaml");
        reveal_strlit("yml");
        reveal_strlit("toml");
        assert("json"@ =~= seq!['j', 's', 'o', 'n']);
        assert("yaml"@ =~= seq!['y', 'a', 'm', 'l']);
        assert("yml"@ =~= seq!['y', 'm', 'l']);
        assert("toml"@ =~= seq!['t', 'o', 'm', 'l']);
    }
    if spells(s, from, to, "json") {
        Some(Format::Json)
    } else if spells(s, from, to, "yaml") || spells(s, from, to, "yml") {
        Some(Format::Yaml)
    } else if spells(s, from, to, "toml") {
        Some(Format::Toml)
    } else {
        None
    }
}

/// Position of the last `.` in `s`.
fn find_last_dot(s: &str) -> (r: Option<usize>)
    ensures
        match r {
            Some(i) => last_dot(s@) == Some(i as int),
            None => last_dot(s@) is None,
        },
{
    let n = s.unicode_len();
    let mut k: usize = n;
    assert(s@.subrange(0, n as int) =~= s@);
    while k > 0
        invariant
            n == s@.len(),
            k <= n,
            last_dot(s@) == last_dot(s@.subrange(0, k as int)),
        decreases k,
    {
        let ghost pre = s@.subrange(0, k as int);
        assert(pre.drop_last() =~= s@.subrange(0, k - 1));
        if s.get_char(k - 1) == '.' {
            return Some(k - 1);
        }
        k = k - 1;
    }
    None
}

impl Format {
    /// The format a name denotes (`json`; `yaml` or `yml`; `toml`), in any
    /// ASCII case.
    pub fn from_str(s: &str) -> (r: Option<Format>)
        ensures
            r == format_of_name(s@),
    {
        let n = s.unicode_len();
        assert(s@.subrange(0, n as int) =~= s@);
        format_of_range(s, 0, n)
    }

    /// The format that a path's extension, after its last `.`, denotes;
    /// `None` when the path has no `.` or the extension is not a known one.
    pub fn from_extension(path: &str) -> (r: Option<Format>)
        ensures
            r == format_of_path(path@),
    {
        match find_last_dot(path) {
            Some(i) => {
                let n = path.unicode_len();
                proof { lemma_last_dot_bounds(path@); }
                format_of_range(path, i + 1, n)
            },
            None => None,
        }
    }

    /// The usual file extension of the format.
    pub fn extension(&self) -> (r: &'static str)
        ensures
            r@ == extension_text(*self),
    {
        proof {
            reveal_strlit("json");
            reveal_strlit("yaml");
            reveal_strlit("toml");
        }
        match self {
            Format::Json => "json",
            Format::Yaml => "yaml",
            Format::Toml => "toml",
        }
    }

    /// The format's name as shown to people.
    pub fn name(&self) -> (r: &'static str)
        ensures
            r@ == name_text(*self),
    {
        proof {
            reveal_strlit("JSON");
            reveal_strlit("YAML");
            reveal_strlit("TOML");
        }
        match self {
            Format::Json => "JSON",
            Format::Yaml => "YAML",
            Format::Toml => "TOML",
        }
    }
}

/// Reads a format name (`json`; `yaml` or `yml`; `toml`, in any ASCII
/// case); any other name is `Error::NotRecognized` carrying it.
pub fn parse_name(s: &str) -> (r: Result<Format, Error>)
    ensures
        match format_of_name(s@) {
            Some(f) => r == Ok::<Format, Error>(f),
            None => r is Err && r->Err_0 is NotRecognized && r->Err_0->NotRecognized_name@ == s@,
        },
{
    match Format::from_str(s) {
        Some(f) => Ok(f),
        None => Err(Error::NotRecognized { name: s.to_owned() }),
    }
}

/// Infers the format from what follows the last `.` of a path. A path with
/// no `.` is `Error::NoExtension`; an extension that names no format is
/// `Error::NotRecognized` carrying the extension.
pub fn infer_from_path(path: &str) -> (r: Result<Format, Error>)
    ensures
        match extension_of(path@) {
            None => r is Err && r->Err_0 is NoExtension && r->Err_0->NoExtension_path@ == path@,
            Some(e) => match format_of_name(e) {
                Some(f) => r == Ok::<Format, Error>(f),
                None => r is Err && r->Err_0 is NotRecognized && r->Err_0->NotRecognized_name@ == e,
            },
        },
{
    match find_last_dot(path) {
        None => Err(Error::NoExtension { path: path.to_owned() }),
        Some(i) => {
            let n = path.unicode_len();
            proof { lemma_last_dot_bounds(path@); }
            let ext = path.substring_char(i + 1, n);
            parse_name(ext)
        },
    }
}

/// Whether a path names standard input (`-`).
pub open spec fn is_stdin(path: Seq<char>) -> bool {
    path == seq!['-']
}

/// The format of an input: the one given wins; otherwise it is inferred
/// from the path's extension. Standard input (`-`) has no extension, so
/// there a format must be given. Where none is found the result is
/// `Error::UnknownFormat` carrying the path.
pub fn resolve_format(given: Option<Format>, path: &str) -> (r: Result<Format, Error>)
    ensures
        given is Some ==> r == Ok::<Format, Error>(given->Some_0),
        given is None && !is_stdin(path@) && format_of_path(path@) is Some ==> r == Ok::<Format, Error>(
            format_of_path(path@)->Some_0,
        ),
        given is None && (is_stdin(path@) || format_of_path(path@) is None) ==> r is Err
            && r->Err_0 is UnknownFormat && r->Err_0->UnknownFormat_path@ == path@,
{
    match given {
        Some(f) => Ok(f),
        None => {
            let stdin = path.unicode_len() == 1 && path.get_char(0) == '-';
            assert(stdin ==> path@ =~= seq!['-']);
            if stdin {
                return Err(Error::UnknownFormat { path: path.to_owned() });
            }
            match Format::from_extension(path) {
                Some(f) => Ok(f),
                None => Err(Error::UnknownFormat { path: path.to_owned() }),
            }
        },
    }
}

/// The usual file extension of each format.
pub open spec fn extension_text(f: Format) -> Seq<char> {
    match f {
        Format::Json => seq!['j', 's', 'o', 'n'],
        Format::Yaml => seq!['y', 'a', 'm', 'l'],
        Format::Toml => seq!['t', 'o', 'm', 'l'],
    }
}

/// The display name of each format.
pub open spec fn name_text(f: Format) -> Seq<char> {
    match f {
        Format::Json => seq!['J', 'S', 'O', 'N'],
        Format::Yaml => seq!['Y', 'A', 'M', 'L'],
        Format::Toml => seq!['T', 'O', 'M', 'L'],
    }
}

} // verus!
