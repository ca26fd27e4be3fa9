//! Derivation of the destination path for a converted image:
//! `{stem}_resized.{token}`, placed in the requested output directory or
//! beside the source file.

use vstd::prelude::*;

verus! {

/// Index where the filename component of a path begins: one past the last
/// `/`, or the start of the path when it has no `/`.
pub open spec fn filename_start(s: Seq<char>) -> int
    decreases s.len(),
{
    if s.len() == 0 {
        0
    } else if s.last() == '/' {
        s.len() as int
    } else {
        filename_start(s.drop_last())
    }
}

/// Position of the last `.` of a filename, ignoring one in the leading
/// position (a name that only starts with a dot has no extension).
pub open spec fn last_dot(f: Seq<char>) -> Option<int>
    decreases f.len(),
{
    if f.len() <= 1 {
        None
    } else if f.last() == '.' {
        Some(f.len() - 1)
    } else {
        last_dot(f.drop_last())
    }
}

/// End of the stem within a filename: up to the last `.` when the name has
/// an extension, the whole name otherwise.
pub open spec fn stem_end(f: Seq<char>) -> int {
    match last_dot(f) {
        Some(j) => j,
        None => f.len() as int,
    }
}

/// The filename is `.` or `..`, which has no stem.
pub open spec fn is_dot_name(f: Seq<char>) -> bool {
    (f.len() == 1 && f[0] == '.') || (f.len() == 2 && f[0] == '.' && f[1] == '.')
}

/// The stem of the path's filename component: the name up to its last `.`.
/// A path whose filename component is empty, `.` or `..` has none.
pub open spec fn spec_file_stem(path: Seq<char>) -> Option<Seq<char>> {
    let f = path.skip(filename_start(path));
    if f.len() == 0 || is_dot_name(f) {
        None
    } else {
        Some(f.take(stem_end(f)))
    }
}

/// The derived output filename: `{stem}_resized.{token}`, with the format
/// token kept verbatim as the extension.
pub open spec fn spec_derived_name(stem: Seq<char>, token: Seq<char>) -> Seq<char> {
    stem + "_resized."@ + token
}

/// A directory joined with a filename, as path concatenation: a separator is
/// inserted unless the directory is empty or already ends in `/`.
pub open spec fn spec_join_dir(dir: Seq<char>, name: Seq<char>) -> Seq<char> {
    if dir.len() == 0 {
        name
    } else if dir.last() == '/' {
        dir + name
    } else {
        dir + seq!['/'] + name
    }
}

/// The destination path for a source path, format token and optional output
/// directory, or nothing when the source has no file stem.
pub open spec fn spec_output_path(
    path: Seq<char>,
    token: Seq<char>,
    out_dir: Option<Seq<char>>,
) -> Option<Seq<char>> {
    match spec_file_stem(path) {
        None => None,
        Some(stem) => {
            let name = spec_derived_name(stem, token);
            match out_dir {
                Some(dir) => Some(spec_join_dir(dir, name)),
                None => Some(path.take(filename_start(path)) + name),
            }
        },
    }
}

/// Derive the destination path: `{stem}_resized.{token}` under the output
/// directory when one is given, else beside the source file.  Returns
/// nothing when the source path has no filename component to take a stem
/// from.
pub fn determine_output_path(source: &str, token: &str, out_dir: Option<&str>) -> (r: Option<
    String,
>)
    ensures
        r matches Some(p) ==> spec_file_stem(source@) is Some && p@ == spec_output_path(
            source@,
            token@,
            match out_dir {
                Some(d) => Some(d@),
                None => None,
            },
        ).unwrap(),
        r is None <==> spec_file_stem(source@) is None,
{
    let n = source.unicode_len();
    // One past the last '/' in the source path.
    let mut start: usize = 0;
    let mut i: usize = 0;
    while i < n
        invariant
            0 <= i <= n == source@.len(),
            start == filename_start(source@.take(i as int)),
            start <= i,
        decreases n - i,
    {
        let c = source.get_char(i);
        proof {
            assert(source@.take(i + 1).drop_last() =~= source@.take(i as int));
            assert(source@.take(i + 1).last() == source@[i as int]);
        }
        if c == '/' {
            start = i + 1;
        }
        i = i + 1;
    }
    proof {
        assert(source@.take(n as int) =~= source@);
    }
    let ghost f = source@.skip(start as int);
    let flen = n - start;
    if flen == 0 {
        return None;
    }
    if flen == 1 && source.get_char(start) == '.' {
        return None;
    }
    if flen == 2 && source.get_char(start) == '.' && source.get_char(start + 1) == '.' {
        return None;
    }
    assert(!is_dot_name(f));
    // Last '.' of the filename, ignoring one in the leading position.
    let mut dot: usize = flen;
    let mut k: usize = 1;
    while k < flen
        invariant
            1 <= k <= flen,
            dot <= flen,
            f == source@.skip(start as int),
            flen == f.len(),
            start + flen == n == source@.len(),
            dot == flen ==> last_dot(f.take(k as int)) is None,
            dot < flen ==> 1 <= dot && last_dot(f.take(k as int)) == Some(dot as int),
        decreases flen - k,
    {
        let c = source.get_char(start + k);
        proof {
            assert(f.take(k + 1).drop_last() =~= f.take(k as int));
            assert(f.take(k + 1).last() == f[k as int]);
            assert(f[k as int] == source@[start + k]);
        }
        if c == '.' {
            dot = k;
        }
        k = k + 1;
    }
    proof {
        assert(f.take(flen as int) =~= f);
        assert(stem_end(f) == if dot < flen {
            dot as int
        } else {
            flen as int
        });
    }
    let stem = source.substring_char(start, start + dot);
    proof {
        assert(f.take(stem_end(f)) =~= source@.subrange(start as int, (start + dot) as int));
    }
    let name = String::from_str(stem).concat("_resized.").concat(token);
    match out_dir {
        Some(dir) => {
            let dlen = dir.unicode_len();
            if dlen == 0 {
                Some(name)
            } else if dir.get_char(dlen - 1) == '/' {
                proof {
                    assert(dir@.last() == dir@[dlen - 1]);
                }
                Some(String::from_str(dir).concat(name.as_str()))
            } else {
                proof {
                    reveal_strlit("/");
                    assert("/"@ =~= seq!['/']);
                }
                Some(String::from_str(dir).concat("/").concat(name.as_str()))
            }
        },
        None => {
            let prefix = source.substring_char(0, start);
            proof {
                assert(source@.subrange(0, start as int) =~= source@.take(start as int));
            }
            Some(String::from_str(prefix).concat(name.as_str()))
        },
    }
}

/// The sequence ends with the given suffix.
pub open spec fn ends_with(s: Seq<char>, suffix: Seq<char>) -> bool {
    suffix.len() <= s.len() && s.skip(s.len() - suffix.len()) == suffix
}

proof fn lemma_concat_suffix(x: Seq<char>, suffix: Seq<char>)
    ensures
        ends_with(x + suffix, suffix),
{
    assert((x + suffix).skip(x.len() as int) =~= suffix);
}

/// Whatever the token's spelling, the destination filename ends in
/// `_resized.` followed by the literal token supplied.
pub proof fn lemma_output_keeps_token(
    path: Seq<char>,
    token: Seq<char>,
    out_dir: Option<Seq<char>>,
)
    requires
        spec_file_stem(path) is Some,
    ensures
        ends_with(spec_output_path(path, token, out_dir).unwrap(), "_resized."@ + token),
{
    let stem = spec_file_stem(path).unwrap();
    let suffix = "_resized."@ + token;
    let name = spec_derived_name(stem, token);
    assert(name =~= stem + suffix);
    match out_dir {
        None => {
            let prefix = path.take(filename_start(path));
            assert(prefix + name =~= (prefix + stem) + suffix);
            lemma_concat_suffix(prefix + stem, suffix);
        },
        Some(dir) => {
            if dir.len() == 0 {
                lemma_concat_suffix(stem, suffix);
            } else if dir.last() == '/' {
                assert(dir + name =~= (dir + stem) + suffix);
                lemma_concat_suffix(dir + stem, suffix);
            } else {
                assert(dir + seq!['/'] + name =~= (dir + seq!['/'] + stem) + suffix);
                lemma_concat_suffix(dir + seq!['/'] + stem, suffix);
            }
        },
    }
}

/// Format-token handling: the spellings `jpeg` and `jpg` select the same
/// encoder, while each destination filename ends in the literal spelling
/// supplied (`..._resized.jpeg` against `..._resized.jpg`).
pub proof fn lemma_format_token_handling(path: Seq<char>, out_dir: Option<Seq<char>>)
    requires
        spec_file_stem(path) is Some,
    ensures
        crate::config::spec_parse_format("jpeg"@) == Some(crate::config::OutputFormat::Jpeg),
        crate::config::spec_parse_format("jpg"@) == Some(crate::config::OutputFormat::Jpeg),
        ends_with(spec_output_path(path, "jpeg"@, out_dir).unwrap(), "_resized.jpeg"@),
        ends_with(spec_output_path(path, "jpg"@, out_dir).unwrap(), "_resized.jpg"@),
{
    crate::config::lemma_jpeg_jpg_same_encoder();
    lemma_output_keeps_token(path, "jpeg"@, out_dir);
    lemma_output_keeps_token(path, "jpg"@, out_dir);
    reveal_strlit("_resized.");
    reveal_strlit("jpeg");
    reveal_strlit("jpg");
    reveal_strlit("_resized.jpeg");
    reveal_strlit("_resized.jpg");
    assert("_resized."@ + "jpeg"@ =~= "_resized.jpeg"@);
    assert("_resized."@ + "jpg"@ =~= "_resized.jpg"@);
}

} // verus!
