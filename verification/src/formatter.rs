//! How a collection is shown: one aligned label per record, the path with the
//! home directory abbreviated, and the way back from what was shown or typed.

use crate::search::{first_where, lemma_first_where, lemma_first_where_at, lemma_first_where_none};
use crate::text::{
    add_separator, chars_of, lemma_padded_len, lemma_strip_end, lemma_strip_start, padded, spaces,
    starts_with, strip, stripped, trim, trimmed, with_separator, Strip,
};
use crate::workspace::{records, text_of, Record, Workspace};
use vstd::prelude::*;
use vstd::string::*;
use vstd::utf8::{encode_scalar, encode_utf8};

verus! {

/// Pads `s` on the right with spaces up to `width` characters.
pub fn pad_right(s: String, width: usize) -> (out: String)
    ensures
        out@ == padded(s@, width as nat),
{
    let n: usize = s.as_str().unicode_len();
    let ghost before = s@;
    let mut out: String = s;
    let mut k: usize = n;
    while k < width
        invariant
            n == before.len(),
            n <= k,
            k <= width || k == n,
            out@ == before + spaces((k - n) as nat),
        decreases width - k,
    {
        proof {
            reveal_strlit(" ");
        }
        out.append(" ");
        k = k + 1;
        assert(out@ =~= before + spaces((k - n) as nat));
    }
    assert(out@ =~= padded(before, width as nat));
    out
}

/// Whether `path` lies in the directory `home` or is that directory: it is
/// `home` itself, or it goes on after `home` with a `/`. Paths are
/// `/`-separated, and no path lies in a home without a name.
pub open spec fn in_home(path: Seq<char>, home: Seq<char>) -> bool {
    &&& home.len() > 0
    &&& home.is_prefix_of(path)
    &&& path.len() > home.len() ==> path[home.len() as int] == '/'
}

/// The path as it is shown: where it lies in the home directory, the home
/// directory at its beginning is replaced by `~`; every other path is shown as it
/// is.
pub open spec fn display_path(path: Seq<char>, home: Option<Seq<char>>) -> Seq<char> {
    match home {
        Some(h) => if in_home(path, h) {
            seq!['~'] + path.skip(h.len() as int)
        } else {
            path
        },
        None => path,
    }
}

/// Tests whether `path` lies in the directory `home` or is that directory.
pub fn is_in_home(path: &str, home: &str) -> (b: bool)
    ensures
        b == in_home(path@, home@),
{
    let pc = chars_of(path);
    let hc = chars_of(home);
    let n: usize = hc.len();
    if n == 0 || !starts_with(path, home) {
        return false;
    }
    pc.len() == n || pc[n] == '/'
}

/// Abbreviates the home directory at the beginning of a path that lies in it to
/// `~`.
pub fn fmt_path(path: String, home: &Option<String>) -> (out: String)
    ensures
        out@ == display_path(path@, text_of(*home)),
{
    match home {
        Some(h) => {
            if is_in_home(path.as_str(), h.as_str()) {
                let from: usize = h.as_str().unicode_len();
                let to: usize = path.as_str().unicode_len();
                proof {
                    reveal_strlit("~");
                }
                let mut out = String::from_str("~");
                out.append(path.as_str().substring_char(from, to));
                assert(out@ =~= seq!['~'] + path@.skip(h@.len() as int));
                out
            } else {
                path
            }
        },
        None => path,
    }
}

/// The number of bytes that `s` takes in UTF-8.
pub open spec fn byte_len(s: Seq<char>) -> nat {
    encode_utf8(s).len()
}

/// The largest `byte_len` among `items`; 0 where there are none.
pub open spec fn widest(items: Seq<Seq<char>>) -> nat
    decreases items.len(),
{
    if items.len() == 0 {
        0
    } else {
        let w = widest(items.drop_last());
        if byte_len(items.last()) > w {
            byte_len(items.last())
        } else {
            w
        }
    }
}

/// The names of the records, in order.
pub open spec fn names(c: Seq<Record>) -> Seq<Seq<char>> {
    c.map_values(|r: Record| r.name)
}

/// The paths of the records as they are shown, in order.
pub open spec fn shown_paths(c: Seq<Record>, home: Option<Seq<char>>) -> Seq<Seq<char>> {
    c.map_values(|r: Record| display_path(r.path, home))
}

/// The label of one record: `[ name ] - [ path ]`, name and path padded to the
/// widths given.
pub open spec fn label(name: Seq<char>, path: Seq<char>, name_width: nat, path_width: nat) -> Seq<
    char,
> {
    seq!['[', ' '] + padded(name, name_width) + seq![' ', ']', ' ', '-', ' ', '[', ' '] + padded(
        path,
        path_width,
    ) + seq![' ', ']']
}

/// The label of record `i` of `c`, aligned with the labels of the other records.
pub open spec fn label_at(c: Seq<Record>, home: Option<Seq<char>>, i: int) -> Seq<char> {
    label(
        c[i].name,
        display_path(c[i].path, home),
        widest(names(c)),
        widest(shown_paths(c, home)),
    )
}

/// A collection as it is shown: each record with its label, in the order of the
/// collection.
pub open spec fn rendered(c: Seq<Record>, home: Option<Seq<char>>) -> Seq<(Seq<char>, Record)> {
    Seq::new(c.len(), |i: int| (label_at(c, home, i), c[i]))
}

/// Labels and records of a rendering, as plain values.
pub open spec fn labelled(pairs: Seq<(String, Workspace)>) -> Seq<(Seq<char>, Record)> {
    pairs.map_values(|p: (String, Workspace)| (p.0@, p.1@))
}

/// The labels of a rendering, in order.
pub open spec fn labels_of(shown: Seq<(Seq<char>, Record)>) -> Seq<Seq<char>> {
    shown.map_values(|p: (Seq<char>, Record)| p.0)
}

/// The records of a rendering, in order.
pub open spec fn records_of(shown: Seq<(Seq<char>, Record)>) -> Seq<Record> {
    shown.map_values(|p: (Seq<char>, Record)| p.1)
}

/// Puts one label together.
fn make_label(name: &String, path: &String, name_width: usize, path_width: usize) -> (out: String)
    ensures
        out@ == label(name@, path@, name_width as nat, path_width as nat),
{
    proof {
        reveal_strlit("[ ");
        reveal_strlit(" ] - [ ");
        reveal_strlit(" ]");
    }
    let mut out = String::from_str("[ ");
    let name_part = pad_right(name.clone(), name_width);
    out.append(name_part.as_str());
    out.append(" ] - [ ");
    let path_part = pad_right(path.clone(), path_width);
    out.append(path_part.as_str());
    out.append(" ]");
    assert("[ "@ =~= seq!['[', ' ']);
    assert(" ] - [ "@ =~= seq![' ', ']', ' ', '-', ' ', '[', ' ']);
    assert(" ]"@ =~= seq![' ', ']']);
    out
}

/// Renders a collection: one `(label, record)` pair per record, in order. Names
/// and shown paths are padded to the largest byte length among them, so the
/// labels of one rendering line up.
pub fn fmt(workspaces: &Vec<Workspace>, home: &Option<String>) -> (out: Vec<(String, Workspace)>)
    ensures
        labelled(out@) == rendered(records(workspaces@), text_of(*home)),
        out@.len() == workspaces@.len(),
        forall|i: int| 0 <= i < out@.len() ==> (#[trigger] out@[i]).1 == workspaces@[i],
{
    let n: usize = workspaces.len();
    let ghost c = records(workspaces@);
    let ghost h = text_of(*home);
    let mut shown: Vec<String> = Vec::new();
    let mut name_width: usize = 0;
    let mut path_width: usize = 0;
    let mut i: usize = 0;
    while i < n
        invariant
            n == workspaces@.len(),
            c == records(workspaces@),
            h == text_of(*home),
            i <= n,
            shown@.len() == i,
            forall|k: int| 0 <= k < i ==> (#[trigger] shown@[k])@ == display_path(c[k].path, h),
            name_width == widest(names(c).take(i as int)),
            path_width == widest(shown_paths(c, h).take(i as int)),
        decreases n - i,
    {
        let ws = &workspaces[i];
        let path = fmt_path(ws.path.clone(), home);
        let name_len: usize = ws.name.as_str().as_bytes().len();
        let path_len: usize = path.as_str().as_bytes().len();
        proof {
            assert(c[i as int] == ws@);
            assert(names(c).take(i + 1).drop_last() =~= names(c).take(i as int));
            assert(shown_paths(c, h).take(i + 1).drop_last() =~= shown_paths(c, h).take(i as int));
            assert(names(c).take(i + 1).last() == ws.name@);
            assert(shown_paths(c, h).take(i + 1).last() == path@);
        }
        if name_len > name_width {
            name_width = name_len;
        }
        if path_len > path_width {
            path_width = path_len;
        }
        shown.push(path);
        i = i + 1;
    }
    proof {
        assert(names(c).take(n as int) =~= names(c));
        assert(shown_paths(c, h).take(n as int) =~= shown_paths(c, h));
    }
    let mut out: Vec<(String, Workspace)> = Vec::new();
    let mut j: usize = 0;
    while j < n
        invariant
            n == workspaces@.len(),
            c == records(workspaces@),
            j <= n,
            shown@.len() == n,
            forall|k: int| 0 <= k < n ==> (#[trigger] shown@[k])@ == display_path(c[k].path, h),
            name_width == widest(names(c)),
            path_width == widest(shown_paths(c, h)),
            out@.len() == j,
            forall|k: int| 0 <= k < j ==> (#[trigger] out@[k]).1 == workspaces@[k],
            forall|k: int| 0 <= k < j ==> (#[trigger] out@[k]).0@ == label_at(c, h, k),
        decreases n - j,
    {
        let ws = &workspaces[j];
        proof {
            assert(c[j as int] == ws@);
        }
        let text = make_label(&ws.name, &shown[j], name_width, path_width);
        out.push((text, ws.clone()));
        j = j + 1;
    }
    assert(labelled(out@) =~= rendered(c, h));
    out
}

/// The test that a pair of a rendering has exactly the label `text`.
pub open spec fn labelled_as(text: Seq<char>) -> spec_fn((Seq<char>, Record)) -> bool {
    |p: (Seq<char>, Record)| p.0 == text
}

/// Where `text` first occurs among the labels of a rendering.
pub open spec fn label_position(shown: Seq<(Seq<char>, Record)>, text: Seq<char>) -> Option<int> {
    first_where(shown, labelled_as(text))
}

/// The position of the first pair whose label is exactly `text`.
pub fn position(fmt_vals: &Vec<(String, Workspace)>, text: &str) -> (out: Option<usize>)
    ensures
        match out {
            Some(i) => label_position(labelled(fmt_vals@), text@) == Some(i as int),
            None => label_position(labelled(fmt_vals@), text@) is None,
        },
{
    let wanted = String::from_str(text);
    let ghost shown = labelled(fmt_vals@);
    let ghost p = labelled_as(text@);
    let mut i: usize = 0;
    while i < fmt_vals.len()
        invariant
            i <= fmt_vals@.len(),
            wanted@ == text@,
            shown == labelled(fmt_vals@),
            p == labelled_as(text@),
            forall|j: int| 0 <= j < i ==> !p(#[trigger] shown[j]),
        decreases fmt_vals@.len() - i,
    {
        if fmt_vals[i].0 == wanted {
            proof {
                lemma_first_where_at(shown, p, i as int);
            }
            return Some(i);
        }
        i = i + 1;
    }
    proof {
        lemma_first_where_none(shown, p);
    }
    None
}

/// The record whose label is exactly `text`: the first one, where several labels
/// are the same.
pub fn find<'a>(fmt_vals: &'a Vec<(String, Workspace)>, text: &str) -> (out: Option<&'a Workspace>)
    ensures
        match label_position(labelled(fmt_vals@), text@) {
            Some(i) => 0 <= i < fmt_vals@.len() && out == Some(&fmt_vals@[i].1),
            None => out is None,
        },
{
    proof {
        lemma_first_where(labelled(fmt_vals@), labelled_as(text@));
    }
    match position(fmt_vals, text) {
        Some(i) => Some(&fmt_vals[i].1),
        None => None,
    }
}

/// A value as it was meant: without the whitespace around it and, where it stands
/// between double quotes, without the quotes and the whitespace inside them.
pub open spec fn unquoted_value(raw: Seq<char>) -> Seq<char> {
    let t = trimmed(raw);
    if t.len() >= 2 && t.first() == '"' && t.last() == '"' {
        trimmed(t.subrange(1, t.len() - 1))
    } else {
        t
    }
}

/// Cleans a raw value: trims it and takes one pair of surrounding double quotes
/// off. A lone `"` has no pair and is kept.
pub fn unfmt_ws_value(raw: &str) -> (out: String)
    ensures
        out@ == unquoted_value(raw@),
{
    let t = trim(raw);
    let chars = chars_of(t.as_str());
    let n: usize = chars.len();
    if n >= 2 && chars[0] == '"' && chars[n - 1] == '"' {
        trim(t.as_str().substring_char(1, n - 1))
    } else {
        t
    }
}

/// `s` without the double quotes, and then without the single quotes, at its ends.
pub open spec fn without_quotes(s: Seq<char>) -> Seq<char> {
    stripped(stripped(s, Strip::Char('"')), Strip::Char('\''))
}

/// What follows a leading `~`, without the one separator that may come first.
pub open spec fn after_tilde(rest: Seq<char>) -> Seq<char> {
    if rest.len() > 0 && (rest[0] == '/' || rest[0] == '\\') {
        rest.drop_first()
    } else {
        rest
    }
}

/// The path that a shown or typed path stands for: quotes at its ends are taken
/// off, and a leading `~` is replaced by the home directory, where one is known.
/// The home directory, one `/`, and what followed the `~` and its one separator
/// are put together as they are.
pub open spec fn expanded_path(path: Seq<char>, home: Option<Seq<char>>) -> Seq<char> {
    let p = without_quotes(path);
    match home {
        Some(h) => if p.len() > 0 && p[0] == '~' {
            with_separator(h) + after_tilde(p.drop_first())
        } else {
            p
        },
        None => p,
    }
}

/// Takes the quotes off the ends of `path` and expands a leading `~` to the home
/// directory.
pub fn unfmt_path(path: String, home: &Option<String>) -> (out: String)
    ensures
        out@ == expanded_path(path@, text_of(*home)),
{
    let p1 = strip(path.as_str(), Strip::Char('"'));
    let p = strip(p1.as_str(), Strip::Char('\''));
    match home {
        Some(h) => {
            let chars = chars_of(p.as_str());
            let n: usize = chars.len();
            if n > 0 && chars[0] == '~' {
                let from: usize = if n > 1 && (chars[1] == '/' || chars[1] == '\\') {
                    2
                } else {
                    1
                };
                let rest = p.as_str().substring_char(from, n);
                assert(rest@ =~= after_tilde(p@.drop_first()));
                let mut out = add_separator(h.clone());
                out.append(rest);
                out
            } else {
                p
            }
        },
        None => p,
    }
}

/// A text takes at least one byte for each of its characters.
pub proof fn lemma_byte_len(s: Seq<char>)
    ensures
        byte_len(s) >= s.len(),
    decreases s.len(),
{
    if s.len() > 0 {
        lemma_byte_len(s.drop_first());
        assert(encode_scalar(s[0] as u32).len() >= 1);
    }
}

/// No item is wider than the widest.
pub proof fn lemma_widest(items: Seq<Seq<char>>, i: int)
    requires
        0 <= i < items.len(),
    ensures
        byte_len(items[i]) <= widest(items),
        items[i].len() <= widest(items),
    decreases items.len(),
{
    lemma_byte_len(items[i]);
    if i < items.len() - 1 {
        lemma_widest(items.drop_last(), i);
    }
}

/// Every label of a rendering has the same shape: the padded name takes the same
/// columns in each, and so does the padded path.
pub proof fn lemma_label_shape(c: Seq<Record>, home: Option<Seq<char>>, i: int)
    requires
        0 <= i < c.len(),
    ensures
        ({
            let nw = widest(names(c)) as int;
            let pw = widest(shown_paths(c, home)) as int;
            let l = label_at(c, home, i);
            &&& l.len() == nw + pw + 11
            &&& l.subrange(2, 2 + nw) == padded(c[i].name, nw as nat)
            &&& l.subrange(9 + nw, 9 + nw + pw) == padded(display_path(c[i].path, home), pw as nat)
            &&& padded(c[i].name, nw as nat).len() == nw
            &&& padded(display_path(c[i].path, home), pw as nat).len() == pw
        }),
{
    let nw = widest(names(c));
    let pw = widest(shown_paths(c, home));
    let shown = display_path(c[i].path, home);
    lemma_widest(names(c), i);
    lemma_widest(shown_paths(c, home), i);
    lemma_padded_len(c[i].name, nw);
    lemma_padded_len(shown, pw);
    let l = label_at(c, home, i);
    assert(l.subrange(2, 2 + nw as int) =~= padded(c[i].name, nw));
    assert(l.subrange(9 + nw as int, 9 + nw as int + pw as int) =~= padded(shown, pw));
}

/// Two texts that are the same once padded to one width, and of which neither
/// ends in a space, are the same.
pub proof fn lemma_padded_same(a: Seq<char>, b: Seq<char>, width: nat)
    requires
        padded(a, width) == padded(b, width),
        a.len() > 0 ==> a.last() != ' ',
        b.len() > 0 ==> b.last() != ' ',
    ensures
        a == b,
{
    lemma_padded_len(a, width);
    lemma_padded_len(b, width);
    let pa = padded(a, width);
    let pb = padded(b, width);
    if a.len() < b.len() {
        assert(pb[b.len() - 1] == b.last());
        assert(pa[b.len() - 1] == ' ');
    } else if b.len() < a.len() {
        assert(pa[a.len() - 1] == a.last());
        assert(pb[a.len() - 1] == ' ');
    } else {
        assert(a =~= pa.subrange(0, a.len() as int));
        assert(b =~= pb.subrange(0, b.len() as int));
    }
}

/// Looking up the label of a record in the rendering of its collection gives that
/// record back, provided that no earlier record has the same label.
pub proof fn lemma_find_rendered(c: Seq<Record>, home: Option<Seq<char>>, i: int)
    requires
        0 <= i < c.len(),
        forall|j: int| 0 <= j < i ==> label_at(c, home, j) != label_at(c, home, i),
    ensures
        label_position(rendered(c, home), label_at(c, home, i)) == Some(i),
        rendered(c, home)[i] == (label_at(c, home, i), c[i]),
{
    let shown = rendered(c, home);
    let p = labelled_as(label_at(c, home, i));
    assert forall|j: int| 0 <= j < i implies !p(#[trigger] shown[j]) by {}
    lemma_first_where_at(shown, p, i);
}

/// Two labels of a rendering are the same exactly where the padded names are
/// the same and the padded shown paths are the same. So two records whose names
/// differ have different labels, unless one of the names ends in a space.
pub proof fn lemma_labels_same(c: Seq<Record>, home: Option<Seq<char>>, i: int, j: int)
    requires
        0 <= i < c.len(),
        0 <= j < c.len(),
    ensures
        label_at(c, home, i) == label_at(c, home, j) <==> {
            &&& padded(c[i].name, widest(names(c))) == padded(c[j].name, widest(names(c)))
            &&& padded(display_path(c[i].path, home), widest(shown_paths(c, home))) == padded(
                display_path(c[j].path, home),
                widest(shown_paths(c, home)),
            )
        },
        ({
            &&& c[i].name != c[j].name
            &&& c[i].name.len() > 0 ==> c[i].name.last() != ' '
            &&& c[j].name.len() > 0 ==> c[j].name.last() != ' '
        }) ==> label_at(c, home, i) != label_at(c, home, j),
{
    lemma_label_shape(c, home, i);
    lemma_label_shape(c, home, j);
    if label_at(c, home, i) == label_at(c, home, j) && (c[i].name.len() > 0 ==> c[i].name.last()
        != ' ') && (c[j].name.len() > 0 ==> c[j].name.last() != ' ') {
        lemma_padded_same(c[i].name, c[j].name, widest(names(c)));
    }
}

/// No two records of `c` have the same label in the rendering of `c`.
pub open spec fn distinct_labels(c: Seq<Record>, home: Option<Seq<char>>) -> bool {
    forall|i: int, j: int|
        0 <= i < c.len() && 0 <= j < c.len() && i != j ==> #[trigger] label_at(c, home, i)
            != #[trigger] label_at(c, home, j)
}

/// In a collection in which no two records have the same label, every label of
/// the rendering leads back to the record it was made for.
pub proof fn lemma_render_then_find(c: Seq<Record>, home: Option<Seq<char>>)
    requires
        distinct_labels(c, home),
    ensures
        forall|i: int|
            0 <= i < c.len() ==> label_position(
                rendered(c, home),
                #[trigger] label_at(c, home, i),
            ) == Some(i) && rendered(c, home)[i] == (label_at(c, home, i), c[i]),
{
    assert forall|i: int| 0 <= i < c.len() implies label_position(
        rendered(c, home),
        #[trigger] label_at(c, home, i),
    ) == Some(i) && rendered(c, home)[i] == (label_at(c, home, i), c[i]) by {
        lemma_find_rendered(c, home, i);
    }
}

/// Where two records have the same label, looking the label up gives the one
/// that comes first: the round trip fails for the later one.
pub proof fn lemma_find_rendered_first(c: Seq<Record>, home: Option<Seq<char>>, i: int)
    requires
        0 <= i < c.len(),
    ensures
        label_position(rendered(c, home), label_at(c, home, i)) matches Some(k) && 0 <= k <= i
            && label_at(c, home, k) == label_at(c, home, i),
        label_position(rendered(c, home), label_at(c, home, i)) == Some(i) <==> forall|j: int|
            0 <= j < i ==> label_at(c, home, j) != label_at(c, home, i),
{
    let shown = rendered(c, home);
    let p = labelled_as(label_at(c, home, i));
    assert(p(shown[i]));
    lemma_first_where(shown, p);
    let k = label_position(shown, label_at(c, home, i))->0;
    assert(p(shown[k]));
    if k == i {
        assert forall|j: int| 0 <= j < i implies label_at(c, home, j) != label_at(c, home, i) by {
            assert(!p(shown[j]));
        }
    }
}

/// A text that neither begins nor ends with a quote keeps its ends.
pub proof fn lemma_without_quotes_same(s: Seq<char>)
    requires
        s.len() > 0 ==> s.first() != '"' && s.first() != '\'' && s.last() != '"' && s.last()
            != '\'',
    ensures
        without_quotes(s) == s,
{
    lemma_strip_start(s, Strip::Char('"'), 0);
    lemma_strip_end(s, Strip::Char('"'), s.len() as int);
    assert(s.skip(0) =~= s);
    assert(s.take(s.len() as int) =~= s);
    lemma_strip_start(s, Strip::Char('\''), 0);
    lemma_strip_end(s, Strip::Char('\''), s.len() as int);
}

/// The shown form of a path is reversible: showing a path and expanding what was
/// shown gives the path back, for every home directory that does not end in `/`
/// and every path other than the home directory itself that has no quote at
/// either end and does not begin with `~`.
pub proof fn lemma_shown_path_expands_back(path: Seq<char>, home: Seq<char>)
    requires
        home.len() > 0 ==> home.last() != '/',
        path != home,
        path.len() > 0 ==> path.first() != '"' && path.first() != '\'' && path.first() != '~',
        path.len() > 0 ==> path.last() != '"' && path.last() != '\'',
    ensures
        expanded_path(display_path(path, Some(home)), Some(home)) == path,
{
    if in_home(path, home) {
        assert(home =~= path.subrange(0, home.len() as int));
        assert(path.len() > home.len()) by {
            if path.len() == home.len() {
                assert(path =~= path.subrange(0, home.len() as int));
            }
        }
        let rest = path.skip(home.len() as int);
        let shown = seq!['~'] + rest;
        assert(shown.last() == path.last());
        lemma_without_quotes_same(shown);
        let r = after_tilde(shown.drop_first());
        assert(shown.drop_first() =~= rest);
        assert(r =~= rest.drop_first());
        assert(with_separator(home) + r =~= path);
    } else {
        lemma_without_quotes_same(path);
    }
}

/// A path that does not lie in the home directory is shown as it is, whatever it
/// begins with.
pub proof fn lemma_other_paths_shown_as_they_are(path: Seq<char>, home: Seq<char>)
    requires
        !in_home(path, home),
    ensures
        display_path(path, Some(home)) == path,
        display_path(path, None) == path,
{
}

} // verus!
