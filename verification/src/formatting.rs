//! The lines under a translated post: a hashtag for every country whose
//! flag the text shows, and the closing lines of the channel.

use vstd::prelude::*;
use vstd::string::StrSliceExecFns;
use vstd::string::StringExecFns;
use crate::lang::Language;
use crate::languages::TextMap;

verus! {

/// `regex::Regex`, a compiled expression.
#[verifier::external_type_specification]
#[verifier::external_body]
pub struct ExRegex(regex::Regex);

/// The expression that `regex::Regex::new` compiles from `pattern`, or
/// `None` where it reports an error.
pub uninterp spec fn regex_of(pattern: Seq<char>) -> Option<regex::Regex>;

/// The matches that `regex::Regex::find_iter` yields in `text`, each as the
/// text it covers, in the order in which it yields them.
pub uninterp spec fn regex_matches(regex: regex::Regex, text: Seq<char>) -> Seq<Seq<char>>;

/// Calls `regex::Regex::new`; the error it may report is dropped. Nothing
/// is proved of it.
#[verifier::external_body]
fn compile(pattern: &str) -> (r: Option<regex::Regex>)
    ensures
        r == regex_of(pattern@),
{
    regex::Regex::new(pattern).ok()
}

/// Calls `regex::Regex::find_iter` and copies the text of each match that
/// it yields. Nothing is proved of it.
#[verifier::external_body]
fn find_all(regex: &regex::Regex, text: &str) -> (r: Vec<String>)
    ensures
        r.deep_view() == regex_matches(*regex, text@),
{
    regex.find_iter(text).map(|found| found.as_str().to_string()).collect()
}

/// How one text stands to another in the order of the dictionary.
#[derive(Debug, Copy, Clone, PartialEq, Eq, Structural)]
pub enum Order {
    Before,
    Same,
    After,
}

/// Whether `a` comes before `b` in the order of the dictionary, in which
/// characters count by their code points and a text comes after each of its
/// beginnings.
pub open spec fn precedes(a: Seq<char>, b: Seq<char>) -> bool
    decreases a.len(),
{
    if b.len() == 0 {
        false
    } else if a.len() == 0 {
        true
    } else if a[0] != b[0] {
        (a[0] as u32) < (b[0] as u32)
    } else {
        precedes(a.drop_first(), b.drop_first())
    }
}

/// Whether each text of `list` comes before all that follow it.
pub open spec fn ascending(list: Seq<Seq<char>>) -> bool {
    forall|i: int, j: int| 0 <= i < j < list.len() ==> precedes(list[i], list[j])
}

/// `list` with `x` put before the first text that it precedes, unless a
/// text equal to `x` is met first.
pub open spec fn inserted(list: Seq<Seq<char>>, x: Seq<char>) -> Seq<Seq<char>>
    decreases list.len(),
{
    if list.len() == 0 {
        seq![x]
    } else if x == list[0] {
        list
    } else if precedes(x, list[0]) {
        seq![x] + list
    } else {
        seq![list[0]] + inserted(list.drop_first(), x)
    }
}

/// The tags of the flags in `found`: what `flags` lists each of them under,
/// in ascending order, each tag once. A flag that is not listed has no tag.
pub open spec fn tags_of(found: Seq<Seq<char>>, flags: Map<Seq<char>, Seq<char>>) -> Seq<
    Seq<char>,
>
    decreases found.len(),
{
    if found.len() == 0 {
        seq![]
    } else {
        let before = tags_of(found.drop_last(), flags);
        if flags.contains_key(found.last()) {
            inserted(before, flags[found.last()])
        } else {
            before
        }
    }
}

/// The tags as hashtags on one line, a space between them.
pub open spec fn hashtag_line(tags: Seq<Seq<char>>) -> Seq<char>
    decreases tags.len(),
{
    if tags.len() == 0 {
        Seq::empty()
    } else if tags.len() == 1 {
        "#"@ + tags[0]
    } else {
        hashtag_line(tags.drop_last()) + " #"@ + tags.last()
    }
}

/// `text`, an empty line, the hashtags on a line of their own if there are
/// any, and `footer`.
pub open spec fn with_footer(text: Seq<char>, tags: Seq<Seq<char>>, footer: Seq<char>) -> Seq<
    char,
> {
    if tags.len() == 0 {
        text + "\n\n"@ + footer
    } else {
        text + "\n\n"@ + hashtag_line(tags) + "\n"@ + footer
    }
}

/// `text` with its footer, where `found` are the flags that stand in it.
pub open spec fn footed(
    text: Seq<char>,
    found: Seq<Seq<char>>,
    flags: Map<Seq<char>, Seq<char>>,
    footer: Seq<char>,
) -> Seq<char> {
    with_footer(text, tags_of(found, flags), footer)
}

/// The pattern of a flag: two regional indicator symbols in a row.
pub open spec fn flag_pattern() -> Seq<char> {
    "\\p{Regional_Indicator}{2}"@
}

/// `text` with its footer, the flags being those that the flag pattern
/// finds in it; `None` where the pattern cannot be compiled.
pub open spec fn footer_text(
    text: Seq<char>,
    flags: Map<Seq<char>, Seq<char>>,
    footer: Seq<char>,
) -> Option<Seq<char>> {
    match regex_of(flag_pattern()) {
        Some(regex) => Some(footed(text, regex_matches(regex, text), flags, footer)),
        None => None,
    }
}

/// No text comes before itself.
pub proof fn lemma_precedes_irreflexive(a: Seq<char>)
    ensures
        !precedes(a, a),
    decreases a.len(),
{
    if a.len() > 0 {
        lemma_precedes_irreflexive(a.drop_first());
    }
}

/// Of two texts at most one comes before the other.
pub proof fn lemma_precedes_asymmetric(a: Seq<char>, b: Seq<char>)
    requires
        precedes(a, b),
    ensures
        !precedes(b, a),
    decreases a.len(),
{
    if a.len() > 0 && b.len() > 0 && a[0] == b[0] {
        lemma_precedes_asymmetric(a.drop_first(), b.drop_first());
    }
}

/// What comes before a text comes before all that the text comes before.
pub proof fn lemma_precedes_transitive(a: Seq<char>, b: Seq<char>, c: Seq<char>)
    requires
        precedes(a, b),
        precedes(b, c),
    ensures
        precedes(a, c),
    decreases a.len(),
{
    if a.len() > 0 && b.len() > 0 && c.len() > 0 && a[0] == b[0] && b[0] == c[0] {
        lemma_precedes_transitive(a.drop_first(), b.drop_first(), c.drop_first());
    }
}

/// Two texts that begin alike stand to each other as what follows the
/// common beginning.
proof fn lemma_precedes_after_prefix(a: Seq<char>, b: Seq<char>, k: int)
    requires
        0 <= k <= a.len(),
        k <= b.len(),
        forall|j: int| 0 <= j < k ==> a[j] == b[j],
    ensures
        precedes(a, b) == precedes(a.skip(k), b.skip(k)),
    decreases k,
{
    if k == 0 {
        assert(a.skip(0) =~= a);
        assert(b.skip(0) =~= b);
    } else {
        assert(a[0] == b[0]);
        let a1 = a.drop_first();
        let b1 = b.drop_first();
        assert forall|j: int| 0 <= j < k - 1 implies a1[j] == b1[j] by {
            assert(a1[j] == a[j + 1]);
            assert(b1[j] == b[j + 1]);
        }
        lemma_precedes_after_prefix(a1, b1, k - 1);
        assert(a1.skip(k - 1) =~= a.skip(k));
        assert(b1.skip(k - 1) =~= b.skip(k));
    }
}

/// Putting a text into an ascending list leaves it ascending, and adds that
/// text and no other.
pub proof fn lemma_inserted(list: Seq<Seq<char>>, x: Seq<char>)
    requires
        ascending(list),
    ensures
        ascending(inserted(list, x)),
        forall|t: Seq<char>| #[trigger]
            inserted(list, x).contains(t) <==> (list.contains(t) || t == x),
    decreases list.len(),
{
    let after = inserted(list, x);
    if list.len() == 0 {
        assert(after[0] == x);
        assert forall|t: Seq<char>| #[trigger]
            after.contains(t) <==> (list.contains(t) || t == x) by {
            if after.contains(t) {
                let i = choose|i: int| 0 <= i < after.len() && after[i] == t;
            }
        }
    } else if x == list[0] {
        assert(list.contains(x));
    } else if precedes(x, list[0]) {
        assert forall|i: int, j: int| 0 <= i < j < after.len() implies precedes(
            after[i],
            after[j],
        ) by {
            if i == 0 {
                if j > 1 {
                    assert(precedes(list[0], list[j - 1]));
                    lemma_precedes_transitive(x, list[0], list[j - 1]);
                }
            } else {
                assert(precedes(list[i - 1], list[j - 1]));
            }
        }
        assert forall|t: Seq<char>| #[trigger]
            after.contains(t) <==> (list.contains(t) || t == x) by {
            if after.contains(t) {
                let i = choose|i: int| 0 <= i < after.len() && after[i] == t;
                if i > 0 {
                    assert(list[i - 1] == t);
                }
            }
            if t == x {
                assert(after[0] == t);
            }
            if list.contains(t) {
                let i = choose|i: int| 0 <= i < list.len() && list[i] == t;
                assert(after[i + 1] == t);
            }
        }
    } else {
        let rest = list.drop_first();
        assert forall|i: int, j: int| 0 <= i < j < rest.len() implies precedes(rest[i], rest[j]) by {
            assert(precedes(list[i + 1], list[j + 1]));
        }
        lemma_inserted(rest, x);
        let tail = inserted(rest, x);
        assert(after =~= seq![list[0]] + tail);
        assert forall|t: Seq<char>| #[trigger]
            after.contains(t) <==> (list.contains(t) || t == x) by {
            if after.contains(t) {
                let i = choose|i: int| 0 <= i < after.len() && after[i] == t;
                if i == 0 {
                    assert(list[0] == t);
                } else {
                    assert(tail[i - 1] == t);
                    assert(tail.contains(t));
                    if rest.contains(t) {
                        let k = choose|k: int| 0 <= k < rest.len() && rest[k] == t;
                        assert(list[k + 1] == t);
                    }
                }
            }
            if t == x {
                assert(tail.contains(t));
                let k = choose|k: int| 0 <= k < tail.len() && tail[k] == t;
                assert(after[k + 1] == t);
            }
            if list.contains(t) {
                let i = choose|i: int| 0 <= i < list.len() && list[i] == t;
                if i == 0 {
                    assert(after[0] == t);
                } else {
                    assert(rest[i - 1] == t);
                    assert(rest.contains(t));
                    assert(tail.contains(t));
                    let k = choose|k: int| 0 <= k < tail.len() && tail[k] == t;
                    assert(after[k + 1] == t);
                }
            }
        }
        assert forall|i: int, j: int| 0 <= i < j < after.len() implies precedes(
            after[i],
            after[j],
        ) by {
            if i == 0 {
                let t = after[j];
                assert(tail[j - 1] == t);
                assert(tail.contains(t));
                if t == x {
                    // x is neither list[0] nor before it
                    lemma_total(x, list[0]);
                } else {
                    assert(rest.contains(t));
                    let k = choose|k: int| 0 <= k < rest.len() && rest[k] == t;
                    assert(precedes(list[0], list[k + 1]));
                }
            } else {
                assert(after[i] == tail[i - 1]);
                assert(after[j] == tail[j - 1]);
            }
        }
    }
}

/// Different characters have different code points.
proof fn lemma_codes_differ(a: char, b: char)
    requires
        a != b,
    ensures
        a as u32 != b as u32,
{
}

/// Of two different texts one comes before the other.
pub proof fn lemma_total(a: Seq<char>, b: Seq<char>)
    requires
        a != b,
    ensures
        precedes(a, b) || precedes(b, a),
    decreases a.len(),
{
    if a.len() > 0 && b.len() > 0 {
        if a[0] == b[0] {
            if a.drop_first() == b.drop_first() {
                assert(a =~= seq![a[0]] + a.drop_first());
                assert(b =~= seq![b[0]] + b.drop_first());
            }
            lemma_total(a.drop_first(), b.drop_first());
        } else {
            lemma_codes_differ(a[0], b[0]);
        }
    } else if a.len() == 0 && b.len() == 0 {
        assert(a =~= b);
    }
}

/// Whether `tag` is what `flags` lists one of the flags in `found` under.
pub open spec fn tagged(found: Seq<Seq<char>>, flags: Map<Seq<char>, Seq<char>>, tag: Seq<char>) -> bool {
    exists|i: int| 0 <= i < found.len() && tag_at(found, flags, tag, i)
}

/// Whether `tag` is what `flags` lists the flag at position `i` under.
pub open spec fn tag_at(
    found: Seq<Seq<char>>,
    flags: Map<Seq<char>, Seq<char>>,
    tag: Seq<char>,
    i: int,
) -> bool {
    flags.contains_key(found[i]) && flags[found[i]] == tag
}

/// The tags under a post stand in ascending order, so that none stands
/// twice, and they are the tags of the listed flags that were found, and no
/// others.
pub proof fn law_tags_sorted_and_unique(found: Seq<Seq<char>>, flags: Map<Seq<char>, Seq<char>>)
    ensures
        ascending(tags_of(found, flags)),
        forall|t: Seq<char>| #[trigger] tags_of(found, flags).contains(t) <==> tagged(found, flags, t),
    decreases found.len(),
{
    let tags = tags_of(found, flags);
    if found.len() == 0 {
        assert forall|t: Seq<char>| #[trigger] tags.contains(t) <==> tagged(found, flags, t) by {
            if tags.contains(t) {
                let i = choose|i: int| 0 <= i < tags.len() && tags[i] == t;
            }
        }
    } else {
        let front = found.drop_last();
        let last = found.len() - 1;
        let before = tags_of(front, flags);
        law_tags_sorted_and_unique(front, flags);
        if flags.contains_key(found.last()) {
            lemma_inserted(before, flags[found.last()]);
        }
        assert forall|t: Seq<char>| #[trigger] tags.contains(t) <==> tagged(found, flags, t) by {
            if tags.contains(t) {
                if before.contains(t) {
                    assert(tagged(front, flags, t));
                    let i = choose|i: int| 0 <= i < front.len() && tag_at(front, flags, t, i);
                    assert(found[i] == front[i]);
                    assert(tag_at(found, flags, t, i));
                } else {
                    assert(flags.contains_key(found.last()));
                    assert(inserted(before, flags[found.last()]).contains(t));
                    assert(tag_at(found, flags, t, last));
                }
            }
            if tagged(found, flags, t) {
                let i = choose|i: int| 0 <= i < found.len() && tag_at(found, flags, t, i);
                if i < last {
                    assert(front[i] == found[i]);
                    assert(tag_at(front, flags, t, i));
                    assert(tagged(front, flags, t));
                    assert(before.contains(t));
                    if flags.contains_key(found.last()) {
                        assert(inserted(before, flags[found.last()]).contains(t));
                    }
                } else {
                    assert(inserted(before, flags[found.last()]).contains(t));
                }
            }
        }
    }
}

/// How `a` stands to `b` in the order of the dictionary.
pub fn compare(a: &str, b: &str) -> (r: Order)
    ensures
        match r {
            Order::Before => precedes(a@, b@),
            Order::Same => a@ == b@,
            Order::After => precedes(b@, a@),
        },
{
    let na: usize = a.unicode_len();
    let nb: usize = b.unicode_len();
    let mut i: usize = 0;
    while i < na && i < nb
        invariant
            i <= na,
            i <= nb,
            na == a@.len(),
            nb == b@.len(),
            forall|j: int| 0 <= j < i ==> a@[j] == b@[j],
        decreases na - i,
    {
        let ca = a.get_char(i);
        let cb = b.get_char(i);
        if ca != cb {
            proof {
                lemma_precedes_after_prefix(a@, b@, i as int);
                lemma_precedes_after_prefix(b@, a@, i as int);
                assert(a@.skip(i as int)[0] == ca);
                assert(b@.skip(i as int)[0] == cb);
                lemma_codes_differ(ca, cb);
            }
            if (ca as u32) < (cb as u32) {
                return Order::Before;
            } else {
                return Order::After;
            }
        }
        i += 1;
    }
    proof {
        lemma_precedes_after_prefix(a@, b@, i as int);
        lemma_precedes_after_prefix(b@, a@, i as int);
    }
    if na == nb {
        assert(a@ =~= b@);
        Order::Same
    } else if na < nb {
        Order::Before
    } else {
        Order::After
    }
}

/// Puts `x` into `list` at its place in the order, unless it is there.
pub fn insert_sorted(list: &mut Vec<String>, x: String)
    ensures
        final(list).deep_view() == inserted(old(list).deep_view(), x@),
{
    let ghost before = list.deep_view();
    let mut i: usize = 0;
    assert(before.take(0) + inserted(before.skip(0), x@) =~= inserted(before, x@)) by {
        assert(before.skip(0) =~= before);
        assert(before.take(0) + inserted(before, x@) =~= inserted(before, x@));
    }
    while i < list.len()
        invariant
            i <= list@.len(),
            before == old(list).deep_view(),
            list.deep_view() == before,
            before.take(i as int) + inserted(before.skip(i as int), x@) == inserted(before, x@),
        decreases list@.len() - i,
    {
        let ghost rest = before.skip(i as int);
        proof {
            assert(rest[0] == list@[i as int]@);
            assert(rest.drop_first() =~= before.skip(i + 1));
            assert(before.take(i + 1) =~= before.take(i as int) + seq![rest[0]]);
        }
        match compare(x.as_str(), list[i].as_str()) {
            Order::Same => {
                proof {
                    assert(inserted(rest, x@) == rest);
                    assert(before.take(i as int) + rest =~= before);
                }
                return ;
            },
            Order::Before => {
                proof {
                    lemma_precedes_irreflexive(x@);
                    assert(inserted(rest, x@) == seq![x@] + rest);
                }
                list.insert(i, x);
                proof {
                    assert(list.deep_view() =~= before.take(i as int) + (seq![x@] + rest));
                }
                return ;
            },
            Order::After => {
                proof {
                    lemma_precedes_irreflexive(x@);
                    lemma_precedes_asymmetric(rest[0], x@);
                    assert(inserted(rest, x@) == seq![rest[0]] + inserted(rest.drop_first(), x@));
                    assert(before.take(i as int) + (seq![rest[0]] + inserted(
                        rest.drop_first(),
                        x@,
                    )) =~= (before.take(i as int) + seq![rest[0]]) + inserted(
                        rest.drop_first(),
                        x@,
                    ));
                }
            },
        }
        i += 1;
    }
    proof {
        assert(before.skip(i as int) =~= Seq::<Seq<char>>::empty());
        assert(before.take(i as int) =~= before);
    }
    list.push(x);
    proof {
        assert(list.deep_view() =~= before + seq![x@]);
    }
}

/// The tags of the flags in `found`, in order, each once.
pub fn tags(found: &Vec<String>, flags: &TextMap) -> (r: Vec<String>)
    ensures
        r.deep_view() == tags_of(found.deep_view(), flags@),
{
    let mut list: Vec<String> = Vec::new();
    let mut i: usize = 0;
    assert(found.deep_view().take(0) =~= Seq::<Seq<char>>::empty());
    assert(list.deep_view() =~= Seq::<Seq<char>>::empty());
    while i < found.len()
        invariant
            i <= found@.len(),
            list.deep_view() == tags_of(found.deep_view().take(i as int), flags@),
        decreases found@.len() - i,
    {
        proof {
            let upto = found.deep_view().take(i + 1);
            assert(upto.drop_last() =~= found.deep_view().take(i as int));
            assert(upto.last() == found@[i as int]@);
        }
        match flags.get(found[i].as_str()) {
            Some(tag) => {
                insert_sorted(&mut list, tag.clone());
            },
            None => {},
        }
        i += 1;
    }
    assert(found.deep_view().take(i as int) =~= found.deep_view());
    list
}

/// The hashtags of `tags` on one line.
fn hashtags(tags: &Vec<String>) -> (r: String)
    ensures
        r@ == hashtag_line(tags.deep_view()),
{
    let mut line = String::new();
    let mut i: usize = 0;
    assert(tags.deep_view().take(0) =~= Seq::<Seq<char>>::empty());
    while i < tags.len()
        invariant
            i <= tags@.len(),
            line@ == hashtag_line(tags.deep_view().take(i as int)),
        decreases tags@.len() - i,
    {
        proof {
            let upto = tags.deep_view().take(i + 1);
            assert(upto.drop_last() =~= tags.deep_view().take(i as int));
            assert(upto.last() == tags@[i as int]@);
            if i == 0 {
                assert(upto[0] == tags@[0]@);
                assert(Seq::<char>::empty() + "#"@ =~= "#"@);
            }
        }
        if i == 0 {
            line.append("#");
        } else {
            line.append(" #");
        }
        line.append(tags[i].as_str());
        i += 1;
    }
    assert(tags.deep_view().take(i as int) =~= tags.deep_view());
    line
}

/// Puts the footer under `text`, given the flags that were found in it.
pub fn add_footer_for(text: &str, found: &Vec<String>, flags: &TextMap, footer: &str) -> (r: String)
    ensures
        r@ == footed(text@, found.deep_view(), flags@, footer@),
{
    let list = tags(found, flags);
    let start = String::from_str(text).concat("\n\n");
    if list.len() == 0 {
        start.concat(footer)
    } else {
        let line = hashtags(&list);
        start.concat(line.as_str()).concat("\n").concat(footer)
    }
}

/// Puts under `text` a hashtag for every flag in it that `flags` lists, and
/// the footer of `lang`. Gives nothing where the flag pattern cannot be
/// compiled.
pub fn add_footer(text: String, lang: &Language, flags: &TextMap) -> (r: Option<String>)
    ensures
        r.deep_view() == footer_text(text@, flags@, lang.footer@),
{
    match compile("\\p{Regional_Indicator}{2}") {
        Some(regex) => {
            let found = find_all(&regex, text.as_str());
            Some(add_footer_for(text.as_str(), &found, flags, lang.footer))
        },
        None => None,
    }
}

} // verus!
