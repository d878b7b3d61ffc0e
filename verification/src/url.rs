//! Parsing of store URLs of the shape `s3://bucket/optional-key-prefix`.
//!
//! The accepted language: the scheme may start anywhere in the argument, the
//! bucket name is the longest run of bucket characters after it, one slash
//! after the bucket is skipped, and the prefix is the longest run of key
//! characters from there; trailing characters outside the key class are
//! ignored.

use vstd::prelude::*;
use crate::errors::ArgumentError;

verus! {

/// A bucket together with an optional key prefix, as parsed from a store URL.
#[derive(Debug, PartialEq, Eq)]
pub struct S3Prefix {
    pub bucket: String,
    pub key_prefix: Option<String>,
}

/// Characters allowed in a bucket name: ASCII letters and digits, underscore,
/// hyphen and dot.
pub open spec fn bucket_char(c: char) -> bool {
    ||| ('A' as u32) <= (c as u32) && (c as u32) <= ('Z' as u32)
    ||| ('a' as u32) <= (c as u32) && (c as u32) <= ('z' as u32)
    ||| ('0' as u32) <= (c as u32) && (c as u32) <= ('9' as u32)
    ||| c == '_'
    ||| c == '-'
    ||| c == '.'
}

/// Characters allowed in a key prefix: every bucket character plus the
/// punctuation and whitespace that object keys may carry.
pub open spec fn key_char(c: char) -> bool {
    ||| bucket_char(c)
    ||| c == '@'
    ||| c == '&'
    ||| c == ':'
    ||| c == ','
    ||| c == '$'
    ||| c == '='
    ||| c == '+'
    ||| c == '?'
    ||| c == ';'
    ||| c == '#'
    ||| c == '/'
    ||| c == '!'
    ||| c == '*'
    ||| c == '\''
    ||| c == '('
    ||| c == ')'
    ||| c == '%'
    ||| c == '{'
    ||| c == '}'
    ||| c == '['
    ||| c == ']'
    ||| c == ' '
    ||| c == '\t'
    ||| c == '\n'
    ||| c == '\r'
    ||| c == '\u{000B}'
    ||| c == '\u{000C}'
}

/// Whether the scheme, followed by at least one bucket character, stands at
/// position `p`.
pub open spec fn scheme_at(s: Seq<char>, p: int) -> bool {
    &&& 0 <= p
    &&& p + 6 <= s.len()
    &&& s[p] == 's'
    &&& s[p + 1] == '3'
    &&& s[p + 2] == ':'
    &&& s[p + 3] == '/'
    &&& s[p + 4] == '/'
    &&& bucket_char(s[p + 5])
}

/// The first position at or after `from` where the scheme starts a match.
pub open spec fn find_scheme(s: Seq<char>, from: int) -> Option<int>
    decreases s.len() - from,
{
    if from < 0 || from + 6 > s.len() {
        None
    } else if scheme_at(s, from) {
        Some(from)
    } else {
        find_scheme(s, from + 1)
    }
}

/// The end of the run of bucket characters starting at `i`.
pub open spec fn bucket_run_end(s: Seq<char>, i: int) -> int
    decreases s.len() - i,
{
    if i < 0 || i >= s.len() || !bucket_char(s[i]) {
        i
    } else {
        bucket_run_end(s, i + 1)
    }
}

/// The end of the run of key characters starting at `i`.
pub open spec fn key_run_end(s: Seq<char>, i: int) -> int
    decreases s.len() - i,
{
    if i < 0 || i >= s.len() || !key_char(s[i]) {
        i
    } else {
        key_run_end(s, i + 1)
    }
}

/// The parse of a store URL: the bucket is the longest run of bucket
/// characters after the first scheme occurrence, one slash after it is
/// skipped, and the prefix is the longest nonempty run of key characters from
/// there, absent when empty.
pub open spec fn spec_parse_s3_url(s: Seq<char>) -> Option<(Seq<char>, Option<Seq<char>>)> {
    match find_scheme(s, 0) {
        None => None,
        Some(p) => {
            let b0 = p + 5;
            let b1 = bucket_run_end(s, b0);
            let k0 = if b1 < s.len() && s[b1] == '/' {
                b1 + 1
            } else {
                b1
            };
            let k1 = key_run_end(s, k0);
            Some(
                (
                    s.subrange(b0, b1),
                    if k1 > k0 {
                        Some(s.subrange(k0, k1))
                    } else {
                        None
                    },
                ),
            )
        },
    }
}

/// Whether a character may stand in a bucket name.
fn bucket_char_exec(c: char) -> (r: bool)
    ensures
        r == bucket_char(c),
{
    let u = c as u32;
    (u >= 'A' as u32 && u <= 'Z' as u32) || (u >= 'a' as u32 && u <= 'z' as u32) || (u >= '0'
        as u32 && u <= '9' as u32) || c == '_' || c == '-' || c == '.'
}

/// Whether a character may stand in a key prefix.
fn key_char_exec(c: char) -> (r: bool)
    ensures
        r == key_char(c),
{
    bucket_char_exec(c) || c == '@' || c == '&' || c == ':' || c == ',' || c == '$' || c == '='
        || c == '+' || c == '?' || c == ';' || c == '#' || c == '/' || c == '!' || c == '*' || c
        == '\'' || c == '(' || c == ')' || c == '%' || c == '{' || c == '}' || c == '[' || c == ']'
        || c == ' ' || c == '\t' || c == '\n' || c == '\r' || c == '\u{000B}' || c == '\u{000C}'
}

/// A stretch with no scheme occurrence moves the search start forward.
proof fn lemma_find_scheme_skip(s: Seq<char>, from: int, to: int)
    requires
        0 <= from <= to,
        forall|q: int| from <= q < to ==> !scheme_at(s, q),
    ensures
        find_scheme(s, from) == find_scheme(s, to),
    decreases to - from,
{
    if from < to {
        if from + 6 > s.len() {
            assert(to + 6 > s.len());
        } else {
            lemma_find_scheme_skip(s, from + 1, to);
        }
    }
}

/// A run of bucket characters over `[from, end)` that stops at `end` pins the
/// run end.
proof fn lemma_bucket_run_end(s: Seq<char>, from: int, end: int)
    requires
        0 <= from <= end <= s.len(),
        forall|q: int| from <= q < end ==> bucket_char(s[q]),
        end == s.len() || !bucket_char(s[end]),
    ensures
        bucket_run_end(s, from) == end,
    decreases end - from,
{
    if from < end {
        lemma_bucket_run_end(s, from + 1, end);
    }
}

/// A run of key characters over `[from, end)` that stops at `end` pins the
/// run end.
proof fn lemma_key_run_end(s: Seq<char>, from: int, end: int)
    requires
        0 <= from <= end <= s.len(),
        forall|q: int| from <= q < end ==> key_char(s[q]),
        end == s.len() || !key_char(s[end]),
    ensures
        key_run_end(s, from) == end,
    decreases end - from,
{
    if from < end {
        lemma_key_run_end(s, from + 1, end);
    }
}

/// Parses a store URL into its bucket and optional key prefix; an argument
/// with no scheme occurrence is an invalid-URL error carrying the argument.
pub fn parse_s3_prefix_url(src: &str) -> (r: Result<S3Prefix, ArgumentError>)
    ensures
        match spec_parse_s3_url(src@) {
            Some(parts) => r matches Ok(p) && p.bucket@ == parts.0 && p.key_prefix.deep_view()
                == parts.1,
            None => r matches Err(ArgumentError::InvalidS3Url { url }) && url@ == src@,
        },
{
    let n = src.unicode_len();
    if n < 6 {
        return Err(ArgumentError::InvalidS3Url { url: src.to_owned() });
    }
    // Search for the first scheme occurrence.
    let mut i: usize = 0;
    let mut found = false;
    while !found && i <= n - 6
        invariant
            n == src@.len(),
            n >= 6,
            i <= n - 5,
            !found ==> forall|q: int| 0 <= q < i ==> !scheme_at(src@, q),
            found ==> i <= n - 6 && scheme_at(src@, i as int) && (forall|q: int|
                0 <= q < i ==> !scheme_at(src@, q)),
        decreases n - i, (if found { 0int } else { 1int }),
    {
        let c0 = src.get_char(i);
        let c1 = src.get_char(i + 1);
        let c2 = src.get_char(i + 2);
        let c3 = src.get_char(i + 3);
        let c4 = src.get_char(i + 4);
        let c5 = src.get_char(i + 5);
        if c0 == 's' && c1 == '3' && c2 == ':' && c3 == '/' && c4 == '/' && bucket_char_exec(c5) {
            found = true;
        } else {
            i = i + 1;
        }
    }
    if !found {
        proof {
            assert(forall|q: int| 0 <= q < i ==> !scheme_at(src@, q));
            assert(forall|q: int| i <= q ==> q + 6 > n ==> !scheme_at(src@, q));
            lemma_find_scheme_skip(src@, 0, i as int);
            assert(find_scheme(src@, i as int) is None);
        }
        return Err(ArgumentError::InvalidS3Url { url: src.to_owned() });
    }
    proof {
        lemma_find_scheme_skip(src@, 0, i as int);
        assert(find_scheme(src@, 0) == Some(i as int));
    }
    // The bucket: the longest run of bucket characters after the scheme.
    let b0 = i + 5;
    let mut b1 = b0;
    while b1 < n && bucket_char_exec(src.get_char(b1))
        invariant
            n == src@.len(),
            b0 <= b1 <= n,
            forall|q: int| b0 <= q < b1 ==> bucket_char(src@[q]),
        decreases n - b1,
    {
        b1 = b1 + 1;
    }
    proof {
        lemma_bucket_run_end(src@, b0 as int, b1 as int);
    }
    // One slash after the bucket is skipped, not part of the prefix.
    let k0 = if b1 < n && src.get_char(b1) == '/' {
        b1 + 1
    } else {
        b1
    };
    // The prefix: the longest run of key characters from there.
    let mut k1 = k0;
    while k1 < n && key_char_exec(src.get_char(k1))
        invariant
            n == src@.len(),
            k0 <= k1 <= n,
            forall|q: int| k0 <= q < k1 ==> key_char(src@[q]),
        decreases n - k1,
    {
        k1 = k1 + 1;
    }
    proof {
        lemma_key_run_end(src@, k0 as int, k1 as int);
    }
    let bucket = src.substring_char(b0, b1).to_owned();
    let key_prefix = if k1 > k0 {
        Some(src.substring_char(k0, k1).to_owned())
    } else {
        None
    };
    Ok(S3Prefix { bucket, key_prefix })
}

} // verus!
