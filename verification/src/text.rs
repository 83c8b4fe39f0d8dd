//! Character-level building blocks: whitespace, stripping, padding, prefixes,
//! splitting and path joining, each with its meaning on `Seq<char>`.

use vstd::prelude::*;
use vstd::std_specs::iter::IteratorSpec;
use vstd::string::*;

verus! {

/// The characters that count as whitespace: the code points with the Unicode
/// property `White_Space`.
pub open spec fn is_whitespace(c: char) -> bool {
    let u = c as u32;
    ||| 0x09 <= u <= 0x0D
    ||| u == 0x20
    ||| u == 0x85
    ||| u == 0xA0
    ||| u == 0x1680
    ||| 0x2000 <= u <= 0x200A
    ||| u == 0x2028
    ||| u == 0x2029
    ||| u == 0x202F
    ||| u == 0x205F
    ||| u == 0x3000
}

/// Which characters are taken off the ends of a text.
#[derive(Clone, Copy, Debug, PartialEq, Eq)]
pub enum Strip {
    /// Every whitespace character.
    Whitespace,
    /// One given character.
    Char(char),
}

impl Strip {
    /// Whether `c` is one of the characters to take off.
    pub open spec fn strips(self, c: char) -> bool {
        match self {
            Strip::Whitespace => is_whitespace(c),
            Strip::Char(d) => c == d,
        }
    }

    /// Tests whether `c` is one of the characters to take off.
    pub fn test(&self, c: char) -> (b: bool)
        ensures
            b == self.strips(c),
    {
        match self {
            Strip::Whitespace => {
                let u: u32 = c as u32;
                (0x09 <= u && u <= 0x0D) || u == 0x20 || u == 0x85 || u == 0xA0 || u == 0x1680 || (
                0x2000 <= u && u <= 0x200A) || u == 0x2028 || u == 0x2029 || u == 0x202F || u
                    == 0x205F || u == 0x3000
            },
            Strip::Char(d) => c == *d,
        }
    }
}

/// `s` without its longest prefix of characters that `what` strips.
pub open spec fn strip_start(s: Seq<char>, what: Strip) -> Seq<char>
    decreases s.len(),
{
    if s.len() > 0 && what.strips(s[0]) {
        strip_start(s.drop_first(), what)
    } else {
        s
    }
}

/// `s` without its longest suffix of characters that `what` strips.
pub open spec fn strip_end(s: Seq<char>, what: Strip) -> Seq<char>
    decreases s.len(),
{
    if s.len() > 0 && what.strips(s.last()) {
        strip_end(s.drop_last(), what)
    } else {
        s
    }
}

/// `s` with the characters that `what` strips taken off both ends.
pub open spec fn stripped(s: Seq<char>, what: Strip) -> Seq<char> {
    strip_end(strip_start(s, what), what)
}

/// `s` without leading and trailing whitespace.
pub open spec fn trimmed(s: Seq<char>) -> Seq<char> {
    stripped(s, Strip::Whitespace)
}

/// Stripping the start of `s` leaves what follows the first `a` characters, when
/// those are all stripped and the next one, if any, is not.
pub proof fn lemma_strip_start(s: Seq<char>, what: Strip, a: int)
    requires
        0 <= a <= s.len(),
        forall|k: int| 0 <= k < a ==> what.strips(#[trigger] s[k]),
        a < s.len() ==> !what.strips(s[a]),
    ensures
        strip_start(s, what) == s.skip(a),
    decreases a,
{
    if a == 0 {
        assert(s.skip(0) =~= s);
    } else {
        let t = s.drop_first();
        assert forall|k: int| 0 <= k < a - 1 implies what.strips(#[trigger] t[k]) by {
            assert(t[k] == s[k + 1]);
        }
        lemma_strip_start(t, what, a - 1);
        assert(t.skip(a - 1) =~= s.skip(a));
    }
}

/// Stripping the end of `s` leaves its first `b` characters, when all that follow
/// them are stripped and the one before, if any, is not.
pub proof fn lemma_strip_end(s: Seq<char>, what: Strip, b: int)
    requires
        0 <= b <= s.len(),
        forall|k: int| b <= k < s.len() ==> what.strips(#[trigger] s[k]),
        0 < b ==> !what.strips(s[b - 1]),
    ensures
        strip_end(s, what) == s.take(b),
    decreases s.len() - b,
{
    if b == s.len() {
        assert(s.take(b) =~= s);
    } else {
        let t = s.drop_last();
        assert forall|k: int| b <= k < t.len() implies what.strips(#[trigger] t[k]) by {
            assert(t[k] == s[k]);
        }
        lemma_strip_end(t, what, b);
        assert(t.take(b) =~= s.take(b));
    }
}

/// What is left after stripping does not begin or end with a stripped character.
pub proof fn lemma_stripped_ends(s: Seq<char>, what: Strip)
    ensures
        stripped(s, what).len() > 0 ==> !what.strips(stripped(s, what).first()) && !what.strips(
            stripped(s, what).last(),
        ),
        stripped(s, what).len() <= s.len(),
{
    lemma_strip_start_shape(s, what);
    lemma_strip_end_shape(strip_start(s, what), what);
}

/// Stripping the start leaves a suffix that does not begin with a stripped character.
pub proof fn lemma_strip_start_shape(s: Seq<char>, what: Strip)
    ensures
        strip_start(s, what).len() <= s.len(),
        strip_start(s, what) == s.skip(s.len() - strip_start(s, what).len()),
        strip_start(s, what).len() > 0 ==> !what.strips(strip_start(s, what).first()),
    decreases s.len(),
{
    if s.len() > 0 && what.strips(s[0]) {
        let t = s.drop_first();
        lemma_strip_start_shape(t, what);
        assert(t.skip(t.len() - strip_start(t, what).len()) =~= s.skip(
            s.len() - strip_start(t, what).len(),
        ));
    } else {
        assert(s.skip(0) =~= s);
    }
}

/// Stripping the end leaves a prefix that does not end with a stripped character,
/// and that still begins as `s` does.
pub proof fn lemma_strip_end_shape(s: Seq<char>, what: Strip)
    ensures
        strip_end(s, what).len() <= s.len(),
        strip_end(s, what) == s.take(strip_end(s, what).len() as int),
        strip_end(s, what).len() > 0 ==> !what.strips(strip_end(s, what).last()),
    decreases s.len(),
{
    if s.len() > 0 && what.strips(s.last()) {
        let t = s.drop_last();
        lemma_strip_end_shape(t, what);
        assert(t.take(strip_end(t, what).len() as int) =~= s.take(
            strip_end(t, what).len() as int,
        ));
    } else {
        assert(s.take(s.len() as int) =~= s);
    }
}

/// The characters of `s`, one by one.
pub fn chars_of(s: &str) -> (out: Vec<char>)
    ensures
        out@ == s@,
{
    broadcast use vstd::string::group_string_axioms;

    let mut out: Vec<char> = Vec::new();
    let mut it = s.chars();
    loop
        invariant
            out@ + it.remaining() == s@,
            it.decrease() is Some,
        decreases it.decrease()->0,
    {
        match it.next() {
            Some(c) => {
                out.push(c);
                assert(out@ + it.remaining() =~= s@);
            },
            None => {
                assert(out@ =~= s@);
                return out;
            },
        }
    }
}

/// Where what is left of `chars` after stripping begins and ends.
fn strip_bounds(chars: &Vec<char>, what: Strip) -> (out: (usize, usize))
    ensures
        out.0 <= out.1 <= chars.len(),
        stripped(chars@, what) == chars@.subrange(out.0 as int, out.1 as int),
{
    let n: usize = chars.len();
    let mut a: usize = 0;
    while a < n && what.test(chars[a])
        invariant
            n == chars.len(),
            a <= n,
            forall|k: int| 0 <= k < a ==> what.strips(#[trigger] chars@[k]),
        decreases n - a,
    {
        a = a + 1;
    }
    let mut b: usize = n;
    while b > a && what.test(chars[b - 1])
        invariant
            n == chars.len(),
            a <= b <= n,
            forall|k: int| b <= k < n ==> what.strips(#[trigger] chars@[k]),
        decreases b,
    {
        b = b - 1;
    }
    proof {
        let s = chars@;
        let t = s.skip(a as int);
        lemma_strip_start(s, what, a as int);
        assert forall|k: int| b - a <= k < t.len() implies what.strips(#[trigger] t[k]) by {
            assert(t[k] == s[k + a]);
        }
        if b > a {
            assert(t[b - a - 1] == s[b - 1]);
        }
        lemma_strip_end(t, what, b - a);
        assert(t.take(b - a) =~= s.subrange(a as int, b as int));
    }
    (a, b)
}

/// Takes the characters that `what` strips off both ends of `s`.
pub fn strip(s: &str, what: Strip) -> (out: String)
    ensures
        out@ == stripped(s@, what),
{
    let chars = chars_of(s);
    let (a, b) = strip_bounds(&chars, what);
    String::from_str(s.substring_char(a, b))
}

/// Removes leading and trailing whitespace from `s`.
pub fn trim(s: &str) -> (out: String)
    ensures
        out@ == trimmed(s@),
{
    strip(s, Strip::Whitespace)
}

/// Whether `a` and `b` hold the same characters.
pub fn same_text(a: &str, b: &str) -> (r: bool)
    ensures
        r == (a@ == b@),
{
    let left = String::from_str(a);
    let right = String::from_str(b);
    left == right
}

/// Whether `s` begins with `prefix`.
pub fn starts_with(s: &str, prefix: &str) -> (b: bool)
    ensures
        b == prefix@.is_prefix_of(s@),
{
    let sc = chars_of(s);
    let pc = chars_of(prefix);
    if pc.len() > sc.len() {
        return false;
    }
    let mut k: usize = 0;
    while k < pc.len()
        invariant
            sc@ == s@,
            pc@ == prefix@,
            k <= pc.len() <= sc.len(),
            forall|j: int| 0 <= j < k ==> sc@[j] == pc@[j],
        decreases pc.len() - k,
    {
        if sc[k] != pc[k] {
            assert(pc@[k as int] != s@.subrange(0, pc@.len() as int)[k as int]);
            return false;
        }
        k = k + 1;
    }
    assert(pc@ =~= sc@.subrange(0, pc@.len() as int));
    true
}

/// A run of `n` space characters.
pub open spec fn spaces(n: nat) -> Seq<char> {
    Seq::new(n, |i: int| ' ')
}

/// `s` followed by as many spaces as it takes to reach `width` characters;
/// `s` itself where it already has that many.
pub open spec fn padded(s: Seq<char>, width: nat) -> Seq<char> {
    if s.len() >= width {
        s
    } else {
        s + spaces((width - s.len()) as nat)
    }
}

/// Padding reaches the width, and never shortens.
pub proof fn lemma_padded_len(s: Seq<char>, width: nat)
    ensures
        padded(s, width).len() == if s.len() >= width {
            s.len()
        } else {
            width
        },
        s.is_prefix_of(padded(s, width)),
        forall|k: int| s.len() <= k < padded(s, width).len() ==> padded(s, width)[k] == ' ',
{
    if s.len() < width {
        assert(padded(s, width).subrange(0, s.len() as int) =~= s);
    } else {
        assert(s.subrange(0, s.len() as int) =~= s);
    }
}

/// `dir` as a directory to go on from: with a `/` at its end, added where `dir`
/// does not end in one. Paths are `/`-separated.
pub open spec fn with_separator(dir: Seq<char>) -> Seq<char> {
    if dir.len() > 0 && dir.last() == '/' {
        dir
    } else {
        dir + seq!['/']
    }
}

/// Ends the `/`-separated path `dir` with a separator, unless it ends with one.
pub fn add_separator(dir: String) -> (out: String)
    ensures
        out@ == with_separator(dir@),
{
    let chars = chars_of(dir.as_str());
    let n: usize = chars.len();
    if n > 0 && chars[n - 1] == '/' {
        dir
    } else {
        proof {
            reveal_strlit("/");
        }
        let mut out = dir;
        out.append("/");
        assert("/"@ =~= seq!['/']);
        out
    }
}

/// `base` extended by the path `rel`, for paths that are `/`-separated: a `rel`
/// that begins with `/` is absolute and stands alone; otherwise the two are put
/// together with one `/` between them, unless `base` is empty or already ends in
/// one. No other separator is known here.
pub open spec fn joined(base: Seq<char>, rel: Seq<char>) -> Seq<char> {
    if rel.len() > 0 && rel[0] == '/' {
        rel
    } else if base.len() == 0 || base.last() == '/' {
        base + rel
    } else {
        base + seq!['/'] + rel
    }
}

/// Extends the `/`-separated path `base` by `rel`.
pub fn join_path(base: &str, rel: &str) -> (out: String)
    ensures
        out@ == joined(base@, rel@),
{
    let bc = chars_of(base);
    let rc = chars_of(rel);
    if rc.len() > 0 && rc[0] == '/' {
        return String::from_str(rel);
    }
    let mut out = String::from_str(base);
    if bc.len() > 0 && bc[bc.len() - 1] != '/' {
        proof {
            reveal_strlit("/");
        }
        out.append("/");
        assert("/"@ =~= seq!['/']);
    }
    out.append(rel);
    out
}

/// The pieces of `s` between occurrences of `sep`: one more than there are
/// separators, the empty pieces included.
pub open spec fn split(s: Seq<char>, sep: char) -> Seq<Seq<char>>
    decreases s.len(),
{
    if s.len() == 0 {
        seq![Seq::<char>::empty()]
    } else {
        let before = split(s.drop_last(), sep);
        if s.last() == sep {
            before.push(Seq::<char>::empty())
        } else {
            before.drop_last().push(before.last().push(s.last()))
        }
    }
}

} // verus!
