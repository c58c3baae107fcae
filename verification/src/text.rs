//! Building blocks on strings, stated over their characters.

use vstd::prelude::*;

verus! {

/// Whether `c` has the Unicode property `White_Space`, the characters that
/// `str::trim` removes.
pub open spec fn is_white_space(c: char) -> bool {
    let n = c as u32;
    ||| 0x09 <= n <= 0x0D
    ||| n == 0x20
    ||| n == 0x85
    ||| n == 0xA0
    ||| n == 0x1680
    ||| 0x2000 <= n <= 0x200A
    ||| n == 0x2028
    ||| n == 0x2029
    ||| n == 0x202F
    ||| n == 0x205F
    ||| n == 0x3000
}

/// `s` without its leading white space.
pub open spec fn trim_start(s: Seq<char>) -> Seq<char>
    decreases s.len(),
{
    if s.len() > 0 && is_white_space(s.first()) {
        trim_start(s.drop_first())
    } else {
        s
    }
}

/// `s` without its trailing white space.
pub open spec fn trim_end(s: Seq<char>) -> Seq<char>
    decreases s.len(),
{
    if s.len() > 0 && is_white_space(s.last()) {
        trim_end(s.drop_last())
    } else {
        s
    }
}

/// `s` without its leading and trailing white space.
pub open spec fn trimmed(s: Seq<char>) -> Seq<char> {
    trim_end(trim_start(s))
}

/// The pieces into which the occurrences of `sep` cut `s`, in order. A text
/// without `sep` is one piece; two neighbouring separators, or one at either
/// end, enclose an empty piece.
pub open spec fn pieces(s: Seq<char>, sep: char) -> Seq<Seq<char>>
    decreases s.len(),
{
    if s.len() == 0 {
        seq![Seq::empty()]
    } else {
        let before = pieces(s.drop_last(), sep);
        if s.last() == sep {
            before.push(Seq::empty())
        } else {
            before.drop_last().push(before.last().push(s.last()))
        }
    }
}

/// The pieces of `pieces(s, sep)`, joined again with `sep` between them.
pub open spec fn joined(parts: Seq<Seq<char>>, sep: char) -> Seq<char>
    decreases parts.len(),
{
    if parts.len() == 0 {
        Seq::empty()
    } else if parts.len() == 1 {
        parts[0]
    } else {
        joined(parts.drop_last(), sep).push(sep) + parts.last()
    }
}

/// The licenses that a manifest's license expression names: its pieces
/// between slashes, each trimmed.
pub open spec fn license_list(license: Seq<char>) -> Seq<Seq<char>> {
    pieces(license, '/').map_values(|piece: Seq<char>| trimmed(piece))
}

/// A version in which every hyphen has become an underscore.
pub open spec fn sanitized_version(version: Seq<char>) -> Seq<char> {
    version.map_values(
        |c: char|
            if c == '-' {
                '_'
            } else {
                c
            },
    )
}

/// `String::push`: the string afterwards is the string before with `c` at its end.
#[verifier::external_body]
fn push_char(s: &mut String, c: char)
    ensures
        final(s)@ == old(s)@.push(c),
{
    s.push(c);
}

/// Tells whether `c` is white space.
pub fn is_space(c: char) -> (b: bool)
    ensures
        b == is_white_space(c),
{
    let n: u32 = c as u32;
    (0x09 <= n && n <= 0x0D) || n == 0x20 || n == 0x85 || n == 0xA0 || n == 0x1680 || (0x2000 <= n
        && n <= 0x200A) || n == 0x2028 || n == 0x2029 || n == 0x202F || n == 0x205F || n == 0x3000
}

/// The characters of `s`, one by one.
pub fn chars_of(s: &str) -> (chars: Vec<char>)
    ensures
        chars@ == s@,
{
    let mut chars: Vec<char> = Vec::new();
    for c in it: s.chars()
        invariant
            it.seq() == s@,
            chars@ == s@.take(it.index()),
    {
        chars.push(c);
    }
    chars
}

/// The string made of `chars[from..to]`.
pub fn string_of(chars: &Vec<char>, from: usize, to: usize) -> (s: String)
    requires
        from <= to <= chars.len(),
    ensures
        s@ == chars@.subrange(from as int, to as int),
{
    let mut s = String::new();
    let mut i: usize = from;
    while i < to
        invariant
            from <= i <= to <= chars.len(),
            s@ == chars@.subrange(from as int, i as int),
        decreases to - i,
    {
        push_char(&mut s, chars[i]);
        i += 1;
    }
    s
}

/// The bounds of `chars[from..to]` without the white space at its two ends.
fn trim_bounds(chars: &Vec<char>, from: usize, to: usize) -> (bounds: (usize, usize))
    requires
        from <= to <= chars.len(),
    ensures
        from <= bounds.0 <= bounds.1 <= to,
        chars@.subrange(bounds.0 as int, bounds.1 as int) == trimmed(
            chars@.subrange(from as int, to as int),
        ),
{
    let ghost whole = chars@.subrange(from as int, to as int);
    let mut lo: usize = from;
    while lo < to && is_space(chars[lo])
        invariant
            from <= lo <= to <= chars.len(),
            trim_start(whole) == trim_start(chars@.subrange(lo as int, to as int)),
        decreases to - lo,
    {
        assert(chars@.subrange(lo as int, to as int).drop_first() =~= chars@.subrange(
            lo + 1,
            to as int,
        ));
        lo += 1;
    }
    let ghost tail = chars@.subrange(lo as int, to as int);
    let mut hi: usize = to;
    while hi > lo && is_space(chars[hi - 1])
        invariant
            lo <= hi <= to <= chars.len(),
            trim_end(tail) == trim_end(chars@.subrange(lo as int, hi as int)),
        decreases hi - lo,
    {
        assert(chars@.subrange(lo as int, hi as int).drop_last() =~= chars@.subrange(
            lo as int,
            hi - 1,
        ));
        hi -= 1;
    }
    (lo, hi)
}

/// Splits a license expression at its slashes and trims each piece, so that
/// `MIT/Apache-2.0` gives `MIT` and `Apache-2.0`, and a license without a
/// slash gives one license.
pub fn split_license(license: &str) -> (licenses: Vec<String>)
    ensures
        licenses.deep_view() == license_list(license@),
{
    let chars = chars_of(license);
    let mut licenses: Vec<String> = Vec::new();
    let ghost mut done: Seq<Seq<char>> = Seq::empty();
    let mut start: usize = 0;
    let mut i: usize = 0;
    assert(chars@.subrange(0, 0) =~= Seq::<char>::empty());
    while i < chars.len()
        invariant
            start <= i <= chars.len(),
            pieces(chars@.take(i as int), '/') == done.push(
                chars@.subrange(start as int, i as int),
            ),
            licenses.deep_view() == done.map_values(|piece: Seq<char>| trimmed(piece)),
        decreases chars.len() - i,
    {
        let ghost current = chars@.subrange(start as int, i as int);
        assert(chars@.take(i + 1).drop_last() =~= chars@.take(i as int));
        if chars[i] == '/' {
            let (lo, hi) = trim_bounds(&chars, start, i);
            let piece = string_of(&chars, lo, hi);
            proof {
                lemma_deep_view_push(licenses, piece);
                assert(done.push(current).map_values(|piece: Seq<char>| trimmed(piece))
                    =~= done.map_values(|piece: Seq<char>| trimmed(piece)).push(trimmed(current)));
                done = done.push(current);
            }
            licenses.push(piece);
            start = i + 1;
            assert(chars@.subrange(start as int, i + 1) =~= Seq::<char>::empty());
        } else {
            assert(chars@.subrange(start as int, i + 1) =~= current.push(chars@[i as int]));
        }
        i += 1;
    }
    let ghost current = chars@.subrange(start as int, i as int);
    let (lo, hi) = trim_bounds(&chars, start, i);
    let piece = string_of(&chars, lo, hi);
    proof {
        lemma_deep_view_push(licenses, piece);
        assert(done.push(current).map_values(|piece: Seq<char>| trimmed(piece)) =~= done.map_values(
            |piece: Seq<char>| trimmed(piece),
        ).push(trimmed(current)));
        assert(chars@.take(i as int) =~= chars@);
    }
    licenses.push(piece);
    licenses
}

/// Rewrites every `-` of `version` to `_`.
pub fn sanitize_version(version: &str) -> (out: String)
    ensures
        out@ == sanitized_version(version@),
{
    let mut out = String::new();
    for c in it: version.chars()
        invariant
            it.seq() == version@,
            out@ == sanitized_version(version@.take(it.index())),
    {
        push_char(
            &mut out,
            if c == '-' {
                '_'
            } else {
                c
            },
        );
    }
    out
}

/// A copy of `texts`.
pub fn clone_texts(texts: &Vec<String>) -> (copy: Vec<String>)
    ensures
        copy.deep_view() == texts.deep_view(),
{
    let mut copy: Vec<String> = Vec::new();
    let mut i: usize = 0;
    while i < texts.len()
        invariant
            i <= texts.len(),
            copy.deep_view() == texts.deep_view().take(i as int),
        decreases texts.len() - i,
    {
        let text = texts[i].clone();
        proof {
            lemma_deep_view_push(copy, text);
        }
        copy.push(text);
        i += 1;
    }
    copy
}

/// Pushing a string onto a vector of strings pushes its characters onto the
/// vector's deep view.
proof fn lemma_deep_view_push(texts: Vec<String>, text: String)
    ensures
        texts@.push(text).map_values(|s: String| s@) =~= texts.deep_view().push(text@),
        texts.deep_view() =~= texts@.map_values(|s: String| s@),
{
}

/// What `trim_start` cuts is white space at the start, and what it leaves
/// does not start with white space.
proof fn lemma_trim_start(s: Seq<char>)
    ensures
        trim_start(s).len() <= s.len(),
        trim_start(s) == s.subrange(s.len() - trim_start(s).len(), s.len() as int),
        forall|i: int| 0 <= i < s.len() - trim_start(s).len() ==> is_white_space(#[trigger] s[i]),
        trim_start(s).len() > 0 ==> !is_white_space(trim_start(s).first()),
    decreases s.len(),
{
    if s.len() > 0 && is_white_space(s.first()) {
        let rest = s.drop_first();
        lemma_trim_start(rest);
        assert forall|i: int| 0 <= i < s.len() - trim_start(s).len() implies is_white_space(
            #[trigger] s[i],
        ) by {
            if i > 0 {
                assert(s[i] == rest[i - 1]);
            }
        }
    }
}

/// What `trim_end` cuts is white space at the end, and what it leaves does
/// not end with white space.
proof fn lemma_trim_end(s: Seq<char>)
    ensures
        trim_end(s).len() <= s.len(),
        trim_end(s) == s.subrange(0, trim_end(s).len() as int),
        forall|i: int| trim_end(s).len() <= i < s.len() ==> is_white_space(#[trigger] s[i]),
        trim_end(s).len() > 0 ==> !is_white_space(trim_end(s).last()),
    decreases s.len(),
{
    if s.len() > 0 && is_white_space(s.last()) {
        let rest = s.drop_last();
        lemma_trim_end(rest);
        assert forall|i: int| trim_end(s).len() <= i < s.len() implies is_white_space(
            #[trigger] s[i],
        ) by {
            if i < s.len() - 1 {
                assert(s[i] == rest[i]);
            }
        }
    }
}

/// Trimming cuts white space from the two ends of a text and nothing else:
/// what is left is one stretch of the text, all that comes before and after
/// it is white space, and it neither starts nor ends with white space.
pub proof fn lemma_trimmed(s: Seq<char>)
    ensures
        exists|from: int, to: int|
            #![trigger s.subrange(from, to)]
            {
                &&& 0 <= from <= to <= s.len()
                &&& trimmed(s) == s.subrange(from, to)
                &&& forall|i: int| 0 <= i < from ==> is_white_space(#[trigger] s[i])
                &&& forall|i: int| to <= i < s.len() ==> is_white_space(#[trigger] s[i])
            },
        trimmed(s).len() > 0 ==> !is_white_space(trimmed(s).first()) && !is_white_space(
            trimmed(s).last(),
        ),
{
    let tail = trim_start(s);
    lemma_trim_start(s);
    lemma_trim_end(tail);
    let from = s.len() - tail.len();
    let to = from + trim_end(tail).len();
    assert(tail.subrange(0, trim_end(tail).len() as int) =~= s.subrange(from, to));
    assert forall|i: int| to <= i < s.len() implies is_white_space(#[trigger] s[i]) by {
        assert(s[i] == tail[i - from]);
    }
}

/// A license expression without a slash names one license: itself, trimmed.
pub proof fn lemma_single_license(license: Seq<char>)
    requires
        !license.contains('/'),
    ensures
        license_list(license) == seq![trimmed(license)],
{
    lemma_pieces(license, '/');
}

/// Cutting a text at a separator loses nothing: there is at least one piece,
/// no piece holds the separator, and the pieces joined with the separator are
/// the text again. A text without the separator is its own single piece.
pub proof fn lemma_pieces(s: Seq<char>, sep: char)
    ensures
        pieces(s, sep).len() >= 1,
        forall|i: int| 0 <= i < pieces(s, sep).len() ==> !(#[trigger] pieces(s, sep)[i]).contains(sep),
        joined(pieces(s, sep), sep) == s,
        !s.contains(sep) ==> pieces(s, sep) == seq![s],
    decreases s.len(),
{
    if s.len() == 0 {
        assert(joined(pieces(s, sep), sep) =~= s);
    } else {
        let front = s.drop_last();
        let before = pieces(front, sep);
        lemma_pieces(front, sep);
        if s.last() == sep {
            let all = before.push(Seq::empty());
            assert(all.drop_last() =~= before);
        } else {
            let grown = before.last().push(s.last());
            let all = before.drop_last().push(grown);
            if before.len() == 1 {
                assert(joined(all, sep) =~= s);
            } else {
                assert(all.drop_last() =~= before.drop_last());
                assert(joined(all, sep) =~= joined(before, sep).push(s.last()));
            }
        }
    }
}

/// A sanitized version is as long as the version, has an underscore wherever
/// the version has a hyphen, agrees with it everywhere else, and so holds no
/// hyphen.
pub proof fn lemma_sanitized_version(version: Seq<char>)
    ensures
        sanitized_version(version).len() == version.len(),
        forall|i: int|
            0 <= i < version.len() ==> #[trigger] sanitized_version(version)[i] == (if version[i]
                == '-' {
                '_'
            } else {
                version[i]
            }),
        !sanitized_version(version).contains('-'),
{
}

} // verus!
