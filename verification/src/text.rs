use vstd::prelude::*;
use vstd::string::*;

verus! {

/// A substitution table: each entry is a placeholder name and its value.
pub type TableView = Seq<(Seq<char>, Seq<char>)>;

/// Appends one character with std's `String::push`, which adds `c` to the
/// end of the string and changes nothing else.
#[verifier::external_body]
fn push_char(s: &mut String, c: char)
    ensures
        final(s)@ == old(s)@.push(c),
{
    s.push(c);
}

/// The deep view of a character list is its view.
pub broadcast proof fn lemma_chars_deep_view(v: Vec<char>)
    ensures
        #[trigger] v.deep_view() == v@,
{
}

/// Pushing onto a vector pushes the item's deep view onto the vector's.
pub proof fn lemma_deep_view_push<T: DeepView>(before: Seq<T>, after: Seq<T>, item: T)
    requires
        after == before.push(item),
    ensures
        Seq::new(after.len(), |i: int| after[i].deep_view()) == Seq::new(
            before.len(),
            |i: int| before[i].deep_view(),
        ).push(item.deep_view()),
{
}

/// The characters of `s`, in order.
pub fn chars_of(s: &str) -> (r: Vec<char>)
    ensures
        r@ == s@,
{
    let mut out: Vec<char> = Vec::new();
    for c in it: s.chars()
        invariant
            it.seq() == s@,
            out@ == it.seq().take(it.index()),
    {
        out.push(c);
    }
    out
}

/// The string whose characters are `v`, in order.
pub fn string_of(v: &Vec<char>) -> (r: String)
    ensures
        r@ == v@,
{
    let mut out = String::new();
    let mut i: usize = 0;
    while i < v.len()
        invariant
            i <= v.len(),
            out@ == v@.take(i as int),
        decreases v.len() - i,
    {
        push_char(&mut out, v[i]);
        i += 1;
    }
    out
}

/// Whether two strings hold the same characters.
pub fn same_text(a: &str, b: &str) -> (r: bool)
    ensures
        r == (a@ == b@),
{
    a.to_owned() == b.to_owned()
}

/// Whether two character lists are equal.
pub fn same_chars(a: &Vec<char>, b: &Vec<char>) -> (r: bool)
    ensures
        r == (a@ == b@),
{
    if a.len() != b.len() {
        return false;
    }
    let mut i: usize = 0;
    while i < a.len()
        invariant
            a.len() == b.len(),
            i <= a.len(),
            a@.take(i as int) == b@.take(i as int),
        decreases a.len() - i,
    {
        if a[i] != b[i] {
            return false;
        }
        i += 1;
    }
    assert(a@.take(a.len() as int) == a@);
    assert(b@.take(b.len() as int) == b@);
    true
}

/// Appends the characters of `tail` to `out`.
pub fn append_chars(out: &mut Vec<char>, tail: &Vec<char>)
    ensures
        final(out)@ == old(out)@ + tail@,
{
    let mut i: usize = 0;
    while i < tail.len()
        invariant
            i <= tail.len(),
            out@ == old(out)@ + tail@.take(i as int),
        decreases tail.len() - i,
    {
        out.push(tail[i]);
        i += 1;
    }
}

/// Whether `pat` stands in `s` at position `at`.
pub open spec fn occurs_at(s: Seq<char>, at: int, pat: Seq<char>) -> bool {
    0 <= at && at + pat.len() <= s.len() && s.subrange(at, at + pat.len()) == pat
}

/// Decides whether `pat` stands in `s` at position `at`.
pub fn starts_at(s: &Vec<char>, at: usize, pat: &Vec<char>) -> (r: bool)
    ensures
        r == occurs_at(s@, at as int, pat@),
{
    if at > s.len() || pat.len() > s.len() - at {
        return false;
    }
    let mut k: usize = 0;
    while k < pat.len()
        invariant
            at + pat.len() <= s.len(),
            k <= pat.len(),
            forall|j: int| 0 <= j < k ==> s@[at + j] == pat@[j],
        decreases pat.len() - k,
    {
        if s[at + k] != pat[k] {
            return false;
        }
        k += 1;
    }
    assert(s@.subrange(at as int, at + pat.len()) =~= pat@);
    true
}

/// The placeholder token of a name: the name between `${` and `}`.
pub open spec fn token(name: Seq<char>) -> Seq<char> {
    seq!['$', '{'] + name + seq!['}']
}

/// Decides whether the token of `name` stands in `s` at position `at`.
pub fn token_starts_at(s: &Vec<char>, at: usize, name: &Vec<char>) -> (r: bool)
    ensures
        r == occurs_at(s@, at as int, token(name@)),
{
    if at > s.len() || s.len() - at < 3 || s.len() - at - 3 < name.len() {
        return false;
    }
    let ghost t = token(name@);
    let ghost window = s@.subrange(at as int, at + t.len());
    if s[at] != '$' {
        assert(window[0] == s@[at as int]);
        return false;
    }
    if s[at + 1] != '{' {
        assert(window[1] == s@[at + 1]);
        return false;
    }
    if s[at + 2 + name.len()] != '}' {
        assert(window[name.len() + 2] == s@[at + 2 + name.len()]);
        return false;
    }
    let inner = starts_at(s, at + 2, name);
    proof {
        let mid = s@.subrange(at + 2, at + 2 + name.len());
        if inner {
            assert(window =~= t);
        } else {
            if window == t {
                assert forall|j: int| 0 <= j < name.len() implies mid[j] == name@[j] by {
                    assert(window[j + 2] == t[j + 2]);
                }
                assert(mid =~= name@);
            }
        }
    }
    inner
}

/// The first entry of `table`, at `from` or later, whose token begins `s`.
pub open spec fn first_match(s: Seq<char>, table: TableView, from: int) -> Option<int>
    decreases table.len() - from,
{
    if from < 0 || from >= table.len() {
        None
    } else if occurs_at(s, 0, token(table[from].0)) {
        Some(from)
    } else {
        first_match(s, table, from + 1)
    }
}

/// What [`first_match`] finds is an entry whose token begins `s`, and no
/// entry between `from` and it has such a token.
pub proof fn lemma_first_match(s: Seq<char>, table: TableView, from: int)
    requires
        0 <= from,
    ensures
        match first_match(s, table, from) {
            Some(k) => from <= k < table.len() && occurs_at(s, 0, token(table[k].0)) && forall|
                j: int,
            | from <= j < k ==> !occurs_at(s, 0, token(#[trigger] table[j].0)),
            None => forall|j: int|
                from <= j < table.len() ==> !occurs_at(s, 0, token(#[trigger] table[j].0)),
        },
    decreases table.len() - from,
{
    if from < table.len() && !occurs_at(s, 0, token(table[from].0)) {
        lemma_first_match(s, table, from + 1);
    }
}

/// `s` with every placeholder token of `table` replaced by its value, in a
/// single pass from left to right: at each position the first entry whose
/// token stands there is replaced and the scan goes on behind the token; a
/// character that begins no token is kept. Values are not scanned again.
pub open spec fn expanded(s: Seq<char>, table: TableView) -> Seq<char>
    decreases s.len(),
{
    if s.len() == 0 {
        Seq::empty()
    } else {
        match first_match(s, table, 0) {
            Some(k) => {
                proof {
                    lemma_first_match(s, table, 0);
                }
                table[k].1 + expanded(s.skip(token(table[k].0).len() as int), table)
            },
            None => seq![s[0]] + expanded(s.skip(1), table),
        }
    }
}

/// Finds the first entry of `table` whose token stands in `s` at `at`.
fn match_at(s: &Vec<char>, at: usize, table: &Vec<(Vec<char>, Vec<char>)>) -> (r: Option<usize>)
    requires
        at <= s.len(),
    ensures
        match r {
            Some(k) => first_match(s@.skip(at as int), table.deep_view(), 0) == Some(k as int),
            None => first_match(s@.skip(at as int), table.deep_view(), 0) is None,
        },
{
    let ghost rest = s@.skip(at as int);
    let ghost tv = table.deep_view();
    let mut k: usize = 0;
    while k < table.len()
        invariant
            at <= s.len(),
            k <= table.len(),
            rest == s@.skip(at as int),
            tv == table.deep_view(),
            first_match(rest, tv, 0) == first_match(rest, tv, k as int),
        decreases table.len() - k,
    {
        let hit = token_starts_at(s, at, &table[k].0);
        proof {
            let t = token(table[k as int].0@);
            assert(tv[k as int].0 == table[k as int].0@);
            if at + t.len() <= s.len() {
                assert(rest.subrange(0, t.len() as int) =~= s@.subrange(at as int, at + t.len()));
            }
        }
        if hit {
            return Some(k);
        }
        k += 1;
    }
    None
}

/// Replaces the placeholder tokens of `table` in `template`, in one pass.
pub fn expand(template: &Vec<char>, table: &Vec<(Vec<char>, Vec<char>)>) -> (r: Vec<char>)
    ensures
        r@ == expanded(template@, table.deep_view()),
{
    let ghost tv = table.deep_view();
    let mut out: Vec<char> = Vec::new();
    let mut i: usize = 0;
    assert(template@.skip(0) == template@);
    while i < template.len()
        invariant
            i <= template.len(),
            tv == table.deep_view(),
            out@ + expanded(template@.skip(i as int), tv) == expanded(template@, tv),
        decreases template.len() - i,
    {
        let ghost rest = template@.skip(i as int);
        match match_at(template, i, table) {
            Some(k) => {
                proof {
                    lemma_first_match(rest, tv, 0);
                }
                let ghost n = token(table[k as int].0@).len();
                append_chars(&mut out, &table[k].1);
                i = i + table[k].0.len() + 3;
                proof {
                    assert(rest.skip(n as int) == template@.skip(i as int));
                }
            },
            None => {
                out.push(template[i]);
                i += 1;
                proof {
                    assert(rest.skip(1) == template@.skip(i as int));
                }
            },
        }
    }
    out
}

/// A template in which no token of the table stands anywhere is left as it is.
pub proof fn lemma_expanded_without_tokens(s: Seq<char>, table: TableView)
    requires
        forall|at: int, k: int|
            #![trigger occurs_at(s, at, token(table[k].0))]
            0 <= at < s.len() && 0 <= k < table.len() ==> !occurs_at(s, at, token(table[k].0)),
    ensures
        expanded(s, table) == s,
    decreases s.len(),
{
    if s.len() > 0 {
        lemma_first_match(s, table, 0);
        let rest = s.skip(1);
        assert forall|at: int, k: int|
            #![trigger occurs_at(rest, at, token(table[k].0))]
            0 <= at < rest.len() && 0 <= k < table.len() implies !occurs_at(
            rest,
            at,
            token(table[k].0),
        ) by {
            let t = token(table[k].0);
            assert(!occurs_at(s, at + 1, t));
            if at + t.len() <= rest.len() {
                assert(rest.subrange(at, at + t.len()) =~= s.subrange(at + 1, at + 1 + t.len()));
            }
        }
        lemma_expanded_without_tokens(rest, table);
    }
}

/// Whether `c` separates the tokens of a whitespace-joined argument line.
pub open spec fn is_space(c: char) -> bool {
    c == ' ' || c == '\t' || c == '\n' || c == '\r' || c == '\x0b' || c == '\x0c'
}

/// The words of `s` from position `i` on, where `current` holds the
/// characters of the word that is open at `i`.
pub open spec fn words_from(s: Seq<char>, i: int, current: Seq<char>) -> Seq<Seq<char>>
    decreases s.len() - i,
{
    let closed = if current.len() > 0 {
        seq![current]
    } else {
        Seq::empty()
    };
    if i < 0 || i >= s.len() {
        closed
    } else if is_space(s[i]) {
        closed + words_from(s, i + 1, Seq::empty())
    } else {
        words_from(s, i + 1, current.push(s[i]))
    }
}

/// The maximal runs of characters of `s` that hold no whitespace, in order.
pub open spec fn words(s: Seq<char>) -> Seq<Seq<char>> {
    words_from(s, 0, Seq::empty())
}

/// Splits a line on whitespace; empty words are dropped.
pub fn split_words(line: &Vec<char>) -> (r: Vec<Vec<char>>)
    ensures
        r.deep_view() == words(line@),
{
    let mut out: Vec<Vec<char>> = Vec::new();
    let mut current: Vec<char> = Vec::new();
    let mut i: usize = 0;
    while i < line.len()
        invariant
            i <= line.len(),
            out.deep_view() + words_from(line@, i as int, current@) == words(line@),
        decreases line.len() - i,
    {
        let c = line[i];
        if c == ' ' || c == '\t' || c == '\n' || c == '\r' || c == '\x0b' || c == '\x0c' {
            if current.len() > 0 {
                proof {
                    lemma_chars_deep_view(current);
                }
                out.push(current);
                current = Vec::new();
            } else {
                assert(current@ =~= Seq::<char>::empty());
            }
        } else {
            current.push(c);
        }
        i += 1;
    }
    if current.len() > 0 {
        proof {
            lemma_chars_deep_view(current);
        }
        out.push(current);
    }
    out
}

/// The parts joined into one text, with `sep` between neighbours.
pub open spec fn joined(parts: Seq<Seq<char>>, sep: Seq<char>) -> Seq<char>
    decreases parts.len(),
{
    if parts.len() == 0 {
        Seq::empty()
    } else if parts.len() == 1 {
        parts[0]
    } else {
        joined(parts.drop_last(), sep) + sep + parts.last()
    }
}

/// Joins the parts into one text, with `sep` between neighbours.
pub fn join(parts: &Vec<Vec<char>>, sep: &Vec<char>) -> (r: Vec<char>)
    ensures
        r@ == joined(parts.deep_view(), sep@),
{
    let ghost pv = parts.deep_view();
    let mut out: Vec<char> = Vec::new();
    let mut i: usize = 0;
    while i < parts.len()
        invariant
            i <= parts.len(),
            pv == parts.deep_view(),
            out@ == joined(pv.take(i as int), sep@),
        decreases parts.len() - i,
    {
        proof {
            assert(pv.take(i + 1).drop_last() =~= pv.take(i as int));
        }
        if i > 0 {
            append_chars(&mut out, sep);
        }
        append_chars(&mut out, &parts[i]);
        i += 1;
    }
    assert(pv.take(parts.len() as int) =~= pv);
    out
}

/// A relative path placed under a directory: the two joined by one `/`,
/// which is left out where the directory is empty or already ends in `/`.
pub open spec fn path_under(dir: Seq<char>, rel: Seq<char>) -> Seq<char> {
    if dir.len() == 0 || dir.last() == '/' {
        dir + rel
    } else {
        dir + seq!['/'] + rel
    }
}

/// Places a relative path under a directory.
pub fn join_path(dir: &Vec<char>, rel: &Vec<char>) -> (r: Vec<char>)
    ensures
        r@ == path_under(dir@, rel@),
{
    let mut out: Vec<char> = Vec::new();
    append_chars(&mut out, dir);
    if dir.len() > 0 && dir[dir.len() - 1] != '/' {
        out.push('/');
    }
    append_chars(&mut out, rel);
    out
}

/// `s` without the occurrences of a pattern, found in one pass from left
/// to right: where the pattern stands it is left out and the scan goes on
/// behind it. An empty pattern leaves `s` as it is.
pub open spec fn without(s: Seq<char>, pat: Seq<char>) -> Seq<char>
    decreases s.len(),
{
    if s.len() == 0 || pat.len() == 0 {
        s
    } else if occurs_at(s, 0, pat) {
        without(s.skip(pat.len() as int), pat)
    } else {
        seq![s[0]] + without(s.skip(1), pat)
    }
}

/// Removes the occurrences of a pattern from a text.
pub fn remove_all(s: &Vec<char>, pat: &Vec<char>) -> (r: Vec<char>)
    ensures
        r@ == without(s@, pat@),
{
    let mut out: Vec<char> = Vec::new();
    if pat.len() == 0 {
        append_chars(&mut out, s);
        return out;
    }
    let mut i: usize = 0;
    assert(s@.skip(0) == s@);
    while i < s.len()
        invariant
            i <= s.len(),
            pat.len() > 0,
            out@ + without(s@.skip(i as int), pat@) == without(s@, pat@),
        decreases s.len() - i,
    {
        let ghost rest = s@.skip(i as int);
        let hit = starts_at(s, i, pat);
        proof {
            if i + pat.len() <= s.len() {
                assert(rest.subrange(0, pat.len() as int) =~= s@.subrange(
                    i as int,
                    i + pat.len(),
                ));
            }
        }
        if hit {
            i = i + pat.len();
            assert(rest.skip(pat.len() as int) == s@.skip(i as int));
        } else {
            out.push(s[i]);
            i += 1;
            proof {
                assert(rest.skip(1) == s@.skip(i as int));
            }
        }
    }
    out
}

/// Replaces the placeholder tokens of a table in a template, in one pass.
/// Of two entries with one name the first counts; a token of no entry is
/// left as it is.
pub fn substitute(template: &str, table: &Vec<(String, String)>) -> (r: String)
    ensures
        r@ == expanded(template@, table.deep_view()),
{
    let mut entries: Vec<(Vec<char>, Vec<char>)> = Vec::new();
    let mut i: usize = 0;
    while i < table.len()
        invariant
            i <= table.len(),
            entries.len() == i,
            forall|j: int|
                0 <= j < i ==> (#[trigger] entries[j]).0@ == table[j].0@ && entries[j].1@
                    == table[j].1@,
        decreases table.len() - i,
    {
        entries.push((chars_of(table[i].0.as_str()), chars_of(table[i].1.as_str())));
        i += 1;
    }
    assert forall|j: int| 0 <= j < table.len() implies entries.deep_view()[j]
        == table.deep_view()[j] by {}
    assert(entries.deep_view() =~= table.deep_view());
    string_of(&expand(&chars_of(template), &entries))
}

/// Splits a line into its words: the maximal runs of characters that hold
/// no whitespace.
pub fn tokenize(line: &str) -> (r: Vec<String>)
    ensures
        r.deep_view() == words(line@),
{
    let parts = split_words(&chars_of(line));
    let mut out: Vec<String> = Vec::new();
    let mut i: usize = 0;
    while i < parts.len()
        invariant
            i <= parts.len(),
            out.len() == i,
            forall|j: int| 0 <= j < i ==> (#[trigger] out[j])@ == parts[j]@,
        decreases parts.len() - i,
    {
        out.push(string_of(&parts[i]));
        i += 1;
    }
    assert forall|j: int| 0 <= j < parts.len() implies out.deep_view()[j]
        == parts.deep_view()[j] by {}
    out
}

} // verus!
