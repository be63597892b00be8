//! Text preparation: canonical segment separators and small string helpers.
//!
//! HL7 v2 separates segments with a lone CR. Input coming from files or
//! terminals often uses CRLF or LF instead; `correct_newlines` rewrites both
//! to CR.

use vstd::prelude::*;

verus! {

use vstd::string::StrSliceExecFns;

/// The view of `correct_newlines`: every CRLF pair becomes a single CR, and
/// every remaining LF becomes a CR.
pub open spec fn normalize_spec(s: Seq<char>) -> Seq<char>
    decreases s.len(),
{
    if s.len() == 0 {
        Seq::empty()
    } else if s[0] == '\r' && s.len() >= 2 && s[1] == '\n' {
        seq!['\r'] + normalize_spec(s.skip(2))
    } else if s[0] == '\n' {
        seq!['\r'] + normalize_spec(s.skip(1))
    } else {
        seq![s[0]] + normalize_spec(s.skip(1))
    }
}

/// Relies on `String::from_iter`: collecting characters yields the string of
/// exactly those characters in order.
#[verifier::external_body]
fn chars_to_string(v: Vec<char>) -> (r: String)
    ensures
        r@ == v@,
{
    v.into_iter().collect()
}

/// Rewrite CRLF and LF segment separators to the canonical CR.
pub fn correct_newlines(message: &str) -> (r: String)
    ensures
        r@ == normalize_spec(message@),
{
    let n = message.unicode_len();
    let mut out: Vec<char> = Vec::new();
    let mut i: usize = 0;
    proof {
        assert(message@.skip(0) =~= message@);
        assert(out@ + normalize_spec(message@) =~= normalize_spec(message@));
    }
    while i < n
        invariant
            i <= n,
            n == message@.len(),
            normalize_spec(message@) == out@ + normalize_spec(message@.skip(i as int)),
        decreases n - i,
    {
        let ghost tail = message@.skip(i as int);
        let c = message.get_char(i);
        if c == '\r' && i + 1 < n && message.get_char(i + 1) == '\n' {
            out.push('\r');
            proof {
                assert(tail[0] == '\r' && tail.len() >= 2 && tail[1] == '\n');
                assert(tail.skip(2) =~= message@.skip(i + 2));
            }
            i = i + 2;
        } else if c == '\n' {
            out.push('\r');
            proof {
                assert(tail[0] == '\n');
                assert(tail.skip(1) =~= message@.skip(i + 1));
            }
            i = i + 1;
        } else {
            out.push(c);
            proof {
                assert(tail[0] == c);
                assert(tail.skip(1) =~= message@.skip(i + 1));
            }
            i = i + 1;
        }
    }
    proof {
        assert(message@.skip(n as int) =~= Seq::<char>::empty());
        assert(out@ + Seq::<char>::empty() =~= out@);
    }
    chars_to_string(out)
}

/// What `strip_ansi_escapes::strip_str` yields on `s`: the text with ANSI
/// escape sequences removed, a deterministic function of the text.
pub uninterp spec fn stripped_of(s: Seq<char>) -> Seq<char>;

/// Relies on `strip_ansi_escapes::strip_str`: removes ANSI escape
/// sequences (cursor movement, coloring) from the text.
#[verifier::external_body]
pub(crate) fn strip_ansi(s: &str) -> (r: String)
    ensures
        r@ == stripped_of(s@),
{
    strip_ansi_escapes::strip_str(s)
}

/// String equality by value, usable wherever two `&str` are at hand.
pub fn str_eq(a: &str, b: &str) -> (r: bool)
    ensures
        r == (a@ == b@),
{
    let x = a.to_owned();
    let y = b.to_owned();
    x == y
}

/// The view of `trim_trailing_cr`: a single trailing CR is removed.
pub open spec fn trim_trailing_cr_spec(s: Seq<char>) -> Seq<char> {
    if s.len() > 0 && s[s.len() - 1] == '\r' {
        s.drop_last()
    } else {
        s
    }
}

/// Remove one trailing CR, if any: the separator that usually closes the
/// final segment of a message read from a file.
pub fn trim_trailing_cr(s: &str) -> (r: String)
    ensures
        r@ == trim_trailing_cr_spec(s@),
{
    let n = s.unicode_len();
    if n > 0 && s.get_char(n - 1) == '\r' {
        let t = s.substring_char(0, n - 1);
        proof {
            assert(t@ =~= s@.drop_last());
        }
        t.to_owned()
    } else {
        s.to_owned()
    }
}

/// The view of `display_text`: every CR becomes an LF.
pub open spec fn cr_to_lf_spec(s: Seq<char>) -> Seq<char> {
    s.map_values(|c: char| if c == '\r' { '\n' } else { c })
}

/// Rewrite CR segment separators to LF for terminal display.
pub fn display_text(message: &str) -> (r: String)
    ensures
        r@ == cr_to_lf_spec(message@),
{
    let n = message.unicode_len();
    let mut out: Vec<char> = Vec::new();
    let mut i: usize = 0;
    while i < n
        invariant
            i <= n,
            n == message@.len(),
            out@.len() == i,
            forall|j: int| 0 <= j < i ==> out@[j] == (if message@[j] == '\r' {
                '\n'
            } else {
                message@[j]
            }),
        decreases n - i,
    {
        let c = message.get_char(i);
        if c == '\r' {
            out.push('\n');
        } else {
            out.push(c);
        }
        i = i + 1;
    }
    proof {
        assert(out@ =~= cr_to_lf_spec(message@));
    }
    chars_to_string(out)
}

/// The view of `lower_ascii`: ASCII upper-case letters become lower-case;
/// everything else is untouched.
pub open spec fn lower_char_spec(c: char) -> char {
    if 'A' <= c && c <= 'Z' {
        (((c as u8) + 32) as char)
    } else {
        c
    }
}

/// Lower-case the ASCII letters of a string.
pub fn lower_ascii(s: &str) -> (r: String)
    ensures
        r@ == s@.map_values(|c: char| lower_char_spec(c)),
{
    let n = s.unicode_len();
    let mut out: Vec<char> = Vec::new();
    let mut i: usize = 0;
    while i < n
        invariant
            i <= n,
            n == s@.len(),
            out@.len() == i,
            forall|j: int| 0 <= j < i ==> out@[j] == lower_char_spec(s@[j]),
        decreases n - i,
    {
        let c = s.get_char(i);
        if 'A' <= c && c <= 'Z' {
            out.push(((c as u8) + 32) as char);
        } else {
            out.push(c);
        }
        i = i + 1;
    }
    proof {
        assert(out@ =~= s@.map_values(|c: char| lower_char_spec(c)));
    }
    chars_to_string(out)
}

proof fn lemma_normalize_no_lf(s: Seq<char>)
    ensures
        forall|i: int| 0 <= i < normalize_spec(s).len() ==> normalize_spec(s)[i] != '\n',
    decreases s.len(),
{
    if s.len() == 0 {
    } else if s[0] == '\r' && s.len() >= 2 && s[1] == '\n' {
        lemma_normalize_no_lf(s.skip(2));
        let t = normalize_spec(s.skip(2));
        assert forall|i: int| 0 <= i < normalize_spec(s).len() implies normalize_spec(s)[i]
            != '\n' by {
            if i > 0 {
                assert(normalize_spec(s)[i] == t[i - 1]);
            }
        }
    } else if s[0] == '\n' {
        lemma_normalize_no_lf(s.skip(1));
        let t = normalize_spec(s.skip(1));
        assert forall|i: int| 0 <= i < normalize_spec(s).len() implies normalize_spec(s)[i]
            != '\n' by {
            if i > 0 {
                assert(normalize_spec(s)[i] == t[i - 1]);
            }
        }
    } else {
        lemma_normalize_no_lf(s.skip(1));
        let t = normalize_spec(s.skip(1));
        assert forall|i: int| 0 <= i < normalize_spec(s).len() implies normalize_spec(s)[i]
            != '\n' by {
            if i > 0 {
                assert(normalize_spec(s)[i] == t[i - 1]);
            } else {
                assert(normalize_spec(s)[0] == s[0]);
            }
        }
    }
}

proof fn lemma_normalize_fixed_without_lf(s: Seq<char>)
    requires
        forall|i: int| 0 <= i < s.len() ==> s[i] != '\n',
    ensures
        normalize_spec(s) == s,
    decreases s.len(),
{
    if s.len() == 0 {
        assert(normalize_spec(s) =~= s);
    } else {
        assert(s[0] != '\n');
        lemma_normalize_fixed_without_lf(s.skip(1));
        assert(seq![s[0]] + s.skip(1) =~= s);
    }
}

/// Split `s` at every occurrence of `sep`; the result always has one more
/// part than there are separators, so a trailing separator yields a final
/// empty part.
pub open spec fn split_on(s: Seq<char>, sep: char) -> Seq<Seq<char>>
    decreases s.len(),
{
    if s.len() == 0 {
        seq![Seq::<char>::empty()]
    } else if s[0] == sep {
        seq![Seq::<char>::empty()] + split_on(s.skip(1), sep)
    } else {
        let rest = split_on(s.skip(1), sep);
        seq![seq![s[0]] + rest[0]] + rest.skip(1)
    }
}

/// `s` contains no occurrence of `sep`.
pub open spec fn free_of(s: Seq<char>, sep: char) -> bool {
    forall|i: int| 0 <= i < s.len() ==> s[i] != sep
}

/// A separator-free text splits into itself alone.
pub proof fn lemma_split_atom(s: Seq<char>, sep: char)
    requires
        free_of(s, sep),
    ensures
        split_on(s, sep) == seq![s],
    decreases s.len(),
{
    if s.len() == 0 {
        assert(s =~= Seq::<char>::empty());
        assert(split_on(s, sep) =~= seq![s]);
    } else {
        assert(s[0] != sep);
        lemma_split_atom(s.skip(1), sep);
        let rest = split_on(s.skip(1), sep);
        assert(rest[0] == s.skip(1));
        assert(seq![s[0]] + s.skip(1) =~= s);
        assert(rest.skip(1) =~= Seq::<Seq<char>>::empty());
        assert(split_on(s, sep) =~= seq![s]);
    }
}

/// Splitting a separator-free part, a separator, and a remainder yields the
/// part followed by the split of the remainder.
pub proof fn lemma_split_chunk(a: Seq<char>, rest: Seq<char>, sep: char)
    requires
        free_of(a, sep),
    ensures
        split_on(a + seq![sep] + rest, sep) == seq![a] + split_on(rest, sep),
    decreases a.len(),
{
    if a.len() == 0 {
        let s = a + seq![sep] + rest;
        assert(s =~= seq![sep] + rest);
        assert(s[0] == sep);
        assert(s.skip(1) =~= rest);
        assert(a =~= Seq::<char>::empty());
        assert(split_on(s, sep) =~= seq![a] + split_on(rest, sep));
    } else {
        let s = a + seq![sep] + rest;
        assert(s[0] == a[0] && a[0] != sep);
        assert(s.skip(1) =~= a.skip(1) + seq![sep] + rest);
        lemma_split_chunk(a.skip(1), rest, sep);
        let r = split_on(s.skip(1), sep);
        assert(r == seq![a.skip(1)] + split_on(rest, sep));
        assert(r[0] == a.skip(1));
        assert(seq![s[0]] + r[0] =~= a);
        assert(r.skip(1) =~= split_on(rest, sep));
        assert(split_on(s, sep) =~= seq![a] + split_on(rest, sep));
    }
}

/// Normalization is idempotent: a text whose separators have already been
/// rewritten to CR is left unchanged by a second pass.
pub proof fn lemma_normalize_idempotent(s: Seq<char>)
    ensures
        normalize_spec(normalize_spec(s)) == normalize_spec(s),
{
    lemma_normalize_no_lf(s);
    lemma_normalize_fixed_without_lf(normalize_spec(s));
}

} // verus!
