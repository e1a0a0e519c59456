//! Reply clean-up: the prompt markers that end a reply, and the removal of
//! the echoed command line and of the trailing prompt line.

use vstd::prelude::*;
use crate::chars::{
    contains, includes, is_space, is_space_char, lemma_trim_back_part, lemma_trim_front_part,
    matches_at, occurs_at, slice_of, to_chars, to_text, trim_back, trim_front, trimmed,
};

verus! {

/// A prompt marker can be searched for: it is not empty and lies on one line.
pub open spec fn is_marker(t: Seq<char>) -> bool {
    t.len() > 0 && forall|i: int| 0 <= i < t.len() ==> t[i] != '\n'
}

/// Some entry of `terms` occurs in `text`.
pub open spec fn any_marker(text: Seq<char>, terms: Seq<Seq<char>>) -> bool {
    exists|k: int| 0 <= k < terms.len() && contains(text, #[trigger] terms[k])
}

/// The prompt markers that the firmware is known to end a reply with.
#[derive(Debug, Clone, PartialEq, Eq)]
pub struct Terminators {
    items: Vec<Vec<char>>,
}

impl Terminators {
    /// The markers, in the order in which they were given.
    pub closed spec fn view(&self) -> Seq<Seq<char>> {
        Seq::new(self.items@.len(), |k: int| self.items@[k]@)
    }

    /// Every marker is usable.
    pub open spec fn wf(&self) -> bool {
        forall|k: int| 0 <= k < self@.len() ==> is_marker(#[trigger] self@[k])
    }

    /// Tests whether `text` may serve as a marker.
    pub fn usable(text: &[char]) -> (b: bool)
        ensures
            b == is_marker(text@),
    {
        if text.len() == 0 {
            return false;
        }
        let mut i: usize = 0;
        while i < text.len()
            invariant
                i <= text.len(),
                forall|j: int| 0 <= j < i ==> text@[j] != '\n',
            decreases text.len() - i,
        {
            if text[i] == '\n' {
                return false;
            }
            i += 1;
        }
        true
    }

    /// A set without markers: every reply then ends by the idle rule.
    pub fn none() -> (r: Terminators)
        ensures
            r@ == Seq::<Seq<char>>::empty(),
            r.wf(),
    {
        let r = Terminators { items: Vec::new() };
        proof {
            assert(r@ =~= Seq::<Seq<char>>::empty());
        }
        r
    }

    /// Adds a marker. The set is unchanged, and `false` returned, where the
    /// text is empty or spans more than one line.
    pub fn add(&mut self, marker: &str) -> (added: bool)
        ensures
            old(self).wf() ==> final(self).wf(),
            added == is_marker(marker@),
            added ==> final(self)@ == old(self)@.push(marker@),
            !added ==> final(self)@ == old(self)@,
    {
        let text = to_chars(marker);
        if Self::usable(text.as_slice()) {
            let ghost before = self@;
            self.items.push(text);
            proof {
                assert(self@ =~= before.push(marker@));
            }
            true
        } else {
            false
        }
    }

    /// The two markers of the stock firmware: `:~$` and `uart:`.
    pub fn standard() -> (r: Terminators)
        ensures
            r@ == seq![":~$"@, "uart:"@],
            r.wf(),
    {
        let mut r = Self::none();
        proof {
            reveal_strlit(":~$");
            reveal_strlit("uart:");
        }
        r.add(":~$");
        r.add("uart:");
        proof {
            assert(r@ =~= seq![":~$"@, "uart:"@]);
        }
        r
    }

    /// The number of markers.
    pub fn len(&self) -> (n: usize)
        ensures
            n == self@.len(),
    {
        self.items.len()
    }

    /// Tests whether some marker occurs in `text`.
    pub fn found_in(&self, text: &[char]) -> (b: bool)
        ensures
            b == any_marker(text@, self@),
    {
        let mut k: usize = 0;
        while k < self.items.len()
            invariant
                k <= self.items.len(),
                self@.len() == self.items@.len(),
                forall|j: int| 0 <= j < k ==> !contains(text@, #[trigger] self@[j]),
            decreases self.items.len() - k,
        {
            assert(self@[k as int] == self.items@[k as int]@);
            if includes(text, self.items[k].as_slice()) {
                return true;
            }
            k += 1;
        }
        false
    }
}

/// The index of the first line break of `s` at or after `from`, or the length
/// of `s` where there is none.
pub open spec fn line_end(s: Seq<char>, from: int) -> int
    decreases s.len() - from,
{
    if from < 0 || from >= s.len() {
        s.len() as int
    } else if s[from] == '\n' {
        from
    } else {
        line_end(s, from + 1)
    }
}

/// The first line of `s`, without its line break.
pub open spec fn first_line(s: Seq<char>) -> Seq<char> {
    s.subrange(0, line_end(s, 0))
}

/// The index at which the last line of `s` starts: just after the last line
/// break, or 0 where there is none.
pub open spec fn last_line_start(s: Seq<char>) -> int
    decreases s.len(),
{
    if s.len() == 0 {
        0
    } else if s.last() == '\n' {
        s.len() as int
    } else {
        last_line_start(s.drop_last())
    }
}

/// The index at which the trailing line of `s` starts: the last line of `s`
/// once the white space at its end, line breaks among it, is set aside.
pub open spec fn prompt_start(s: Seq<char>) -> int {
    last_line_start(trim_back(s))
}

/// `line` echoes the command: it is the command itself, with or without a
/// carriage return before the line break.
pub open spec fn is_echo(line: Seq<char>, command: Seq<char>) -> bool {
    line == command || line == command.push('\r')
}

/// `raw` without its first line, where that line echoes the command.
pub open spec fn strip_echo(raw: Seq<char>, command: Seq<char>) -> Seq<char> {
    let k = line_end(raw, 0);
    if is_echo(first_line(raw), command) {
        if k < raw.len() {
            raw.subrange(k + 1, raw.len() as int)
        } else {
            Seq::empty()
        }
    } else {
        raw
    }
}

/// `s` without its trailing line and the white space after it, where a
/// marker occurs in them.
pub open spec fn strip_prompt(s: Seq<char>, terms: Seq<Seq<char>>) -> Seq<char> {
    let k = prompt_start(s);
    if any_marker(s.subrange(k, s.len() as int), terms) {
        s.subrange(0, k)
    } else {
        s
    }
}

/// The cleaned reply: echo line removed, then prompt line removed, then the
/// surrounding white space removed.
pub open spec fn cleaned(raw: Seq<char>, command: Seq<char>, terms: Seq<Seq<char>>) -> Seq<char> {
    cleaned_body(strip_echo(raw, command), terms)
}

/// The cleaned form of a text from which no echo is left to remove.
pub open spec fn cleaned_body(a: Seq<char>, terms: Seq<Seq<char>>) -> Seq<char> {
    trimmed(strip_prompt(a, terms))
}

proof fn lemma_line_end_bounds(s: Seq<char>, from: int)
    requires
        0 <= from <= s.len(),
    ensures
        from <= line_end(s, from) <= s.len(),
        line_end(s, from) < s.len() ==> s[line_end(s, from)] == '\n',
        forall|j: int| from <= j < line_end(s, from) ==> s[j] != '\n',
    decreases s.len() - from,
{
    if from < s.len() && s[from] != '\n' {
        lemma_line_end_bounds(s, from + 1);
    }
}

proof fn lemma_last_line_bounds(s: Seq<char>)
    ensures
        0 <= last_line_start(s) <= s.len(),
        last_line_start(s) > 0 ==> s[last_line_start(s) - 1] == '\n',
        forall|j: int| last_line_start(s) <= j < s.len() ==> s[j] != '\n',
    decreases s.len(),
{
    if s.len() > 0 && s.last() != '\n' {
        let t = s.drop_last();
        lemma_last_line_bounds(t);
        assert forall|j: int| last_line_start(s) <= j < s.len() implies s[j] != '\n' by {
            if j < t.len() {
                assert(t[j] == s[j]);
            }
        }
        if last_line_start(s) > 0 {
            assert(t[last_line_start(s) - 1] == s[last_line_start(s) - 1]);
        }
    }
}

proof fn lemma_prompt_start_bounds(s: Seq<char>)
    ensures
        0 <= prompt_start(s) <= s.len(),
        prompt_start(s) > 0 ==> s[prompt_start(s) - 1] == '\n',
{
    let e = lemma_trim_back_part(s);
    let kept = trim_back(s);
    lemma_last_line_bounds(kept);
    if prompt_start(s) > 0 {
        assert(kept[prompt_start(s) - 1] == s[prompt_start(s) - 1]);
    }
}

proof fn lemma_one_line_starts_at_zero(s: Seq<char>)
    requires
        forall|j: int| 0 <= j < s.len() ==> s[j] != '\n',
    ensures
        prompt_start(s) == 0,
{
    let e = lemma_trim_back_part(s);
    let kept = trim_back(s);
    lemma_last_line_bounds(kept);
    if last_line_start(kept) > 0 {
        assert(kept[last_line_start(kept) - 1] == s[last_line_start(kept) - 1]);
    }
}

proof fn lemma_space_tail(s: Seq<char>, w: Seq<char>)
    requires
        forall|j: int| 0 <= j < w.len() ==> is_space(#[trigger] w[j]),
    ensures
        trim_back(s + w) == trim_back(s),
    decreases w.len(),
{
    if w.len() == 0 {
        assert(s + w =~= s);
    } else {
        assert((s + w).last() == w.last());
        assert((s + w).drop_last() =~= s + w.drop_last());
        lemma_space_tail(s, w.drop_last());
    }
}

/// The index at which the first line of `text` ends.
pub fn find_line_end(text: &[char]) -> (k: usize)
    ensures
        k == line_end(text@, 0),
        k <= text.len(),
{
    let mut k: usize = 0;
    while k < text.len() && text[k] != '\n'
        invariant
            k <= text.len(),
            line_end(text@, 0) == line_end(text@, k as int),
        decreases text.len() - k,
    {
        k += 1;
    }
    k
}

/// The index at which the last line of `text` starts.
pub fn find_last_line(text: &[char]) -> (k: usize)
    ensures
        k == last_line_start(text@),
        k <= text.len(),
{
    let mut k: usize = text.len();
    proof {
        assert(text@.subrange(0, k as int) =~= text@);
    }
    while k > 0 && text[k - 1] != '\n'
        invariant
            k <= text.len(),
            last_line_start(text@) == last_line_start(text@.subrange(0, k as int)),
        decreases k,
    {
        proof {
            assert(text@.subrange(0, k as int).drop_last() =~= text@.subrange(0, k - 1));
        }
        k -= 1;
    }
    k
}

/// The index at which the white space at the end of `text` starts.
pub fn find_trim_end(text: &[char]) -> (e: usize)
    ensures
        e <= text.len(),
        text@.subrange(0, e as int) == trim_back(text@),
{
    let mut e: usize = text.len();
    proof {
        assert(text@.subrange(0, e as int) =~= text@);
    }
    while e > 0 && is_space_char(text[e - 1])
        invariant
            e <= text.len(),
            trim_back(text@) == trim_back(text@.subrange(0, e as int)),
        decreases e,
    {
        proof {
            assert(text@.subrange(0, e as int).drop_last() =~= text@.subrange(0, e - 1));
        }
        e -= 1;
    }
    e
}

/// The index at which the trailing line of `text` starts.
pub fn find_prompt_start(text: &[char]) -> (k: usize)
    ensures
        k == prompt_start(text@),
        k <= text.len(),
{
    let e = find_trim_end(text);
    let kept = slice_of(text, 0, e);
    find_last_line(kept.as_slice())
}

/// Cleans a raw reply: removes a first line that echoes the command, then the
/// trailing line, and the white space after it, where a prompt marker occurs
/// in them, then the surrounding white space.
pub fn clean(raw: &[char], command: &[char], terms: &Terminators) -> (r: Vec<char>)
    ensures
        r@ == cleaned(raw@, command@, terms@),
{
    let k = find_line_end(raw);
    let head = slice_of(raw, 0, k);
    let same = head.len() == command.len() && matches_at(head.as_slice(), command, 0);
    let returned = head.len() > 0 && head.len() - 1 == command.len() && head[head.len() - 1]
        == '\r' && matches_at(head.as_slice(), command, 0);
    let echoed = same || returned;
    proof {
        let n = command@.len() as int;
        assert(head@ == first_line(raw@));
        if head@.len() == n {
            assert(head@.subrange(0, n) =~= head@);
        }
        if head@.len() == n + 1 {
            assert(command@.push('\r').subrange(0, n) =~= command@);
            if returned {
                assert(head@ =~= head@.subrange(0, n).push('\r'));
            }
            if head@ == command@.push('\r') {
                assert(head@[n] == '\r');
            }
        }
        assert(same == (head@ == command@));
        assert(returned == (head@ == command@.push('\r')));
        assert(echoed == is_echo(first_line(raw@), command@));
    }
    let body = if echoed {
        if k < raw.len() {
            slice_of(raw, k + 1, raw.len())
        } else {
            Vec::new()
        }
    } else {
        slice_of(raw, 0, raw.len())
    };
    proof {
        assert(raw@.subrange(0, raw@.len() as int) =~= raw@);
        assert(body@ =~= strip_echo(raw@, command@));
    }
    let s = find_prompt_start(body.as_slice());
    let tail = slice_of(body.as_slice(), s, body.len());
    let kept = if terms.found_in(tail.as_slice()) {
        slice_of(body.as_slice(), 0, s)
    } else {
        body
    };
    crate::chars::trim(kept.as_slice())
}

/// Cleans a raw reply given as text.
pub fn clean_reply(raw: &str, command: &str, terms: &Terminators) -> (r: String)
    ensures
        r@ == cleaned(raw@, command@, terms@),
{
    let text = to_chars(raw);
    let line = to_chars(command);
    let out = clean(text.as_slice(), line.as_slice(), terms);
    to_text(out.as_slice())
}

/// What occurs in a part of a text occurs in the text.
pub proof fn lemma_part_contains(whole: Seq<char>, i: int, j: int, pat: Seq<char>)
    requires
        0 <= i <= j <= whole.len(),
        contains(whole.subrange(i, j), pat),
    ensures
        contains(whole, pat),
{
    let part = whole.subrange(i, j);
    let k = choose|k: int| occurs_at(part, pat, k);
    assert(whole.subrange(i + k, i + k + pat.len()) =~= part.subrange(k, k + pat.len()));
    assert(occurs_at(whole, pat, i + k));
}

/// What occurs in a trimmed text occurs in the text.
pub proof fn lemma_trimmed_contains(s: Seq<char>, pat: Seq<char>)
    requires
        contains(trimmed(s), pat),
    ensures
        contains(s, pat),
{
    let a = lemma_trim_front_part(s);
    let f = trim_front(s);
    let b = lemma_trim_back_part(f);
    lemma_part_contains(f, 0, b, pat);
    lemma_part_contains(s, a, s.len() as int, pat);
}

/// What occurs in a cleaned reply occurs in the raw reply after its echo line.
pub proof fn lemma_cleaned_contains(
    raw: Seq<char>,
    command: Seq<char>,
    terms: Seq<Seq<char>>,
    pat: Seq<char>,
)
    requires
        contains(cleaned(raw, command, terms), pat),
    ensures
        contains(strip_prompt(strip_echo(raw, command), terms), pat),
        contains(strip_echo(raw, command), pat),
        contains(raw, pat),
{
    let a = strip_echo(raw, command);
    let b = strip_prompt(a, terms);
    lemma_trimmed_contains(b, pat);
    lemma_prompt_start_bounds(a);
    if b != a {
        lemma_part_contains(a, 0, prompt_start(a), pat);
    }
    lemma_line_end_bounds(raw, 0);
    if a != raw {
        if line_end(raw, 0) < raw.len() {
            lemma_part_contains(raw, line_end(raw, 0) + 1, raw.len() as int, pat);
        } else {
            let k = choose|k: int| occurs_at(a, pat, k);
            assert(pat.len() == 0);
            assert(raw.subrange(0, 0) =~= pat);
            assert(occurs_at(raw, pat, 0));
        }
    }
}

/// An occurrence of a marker lies wholly before the trailing line or wholly
/// in what starts with it.
proof fn lemma_marker_side(a: Seq<char>, t: Seq<char>, i: int)
    requires
        is_marker(t),
        occurs_at(a, t, i),
    ensures
        i >= prompt_start(a) ==> occurs_at(
            a.subrange(prompt_start(a), a.len() as int),
            t,
            i - prompt_start(a),
        ),
        i < prompt_start(a) ==> occurs_at(a.subrange(0, prompt_start(a)), t, i),
{
    let s = prompt_start(a);
    let n = t.len() as int;
    lemma_prompt_start_bounds(a);
    if i >= s {
        assert(a.subrange(s, a.len() as int).subrange(i - s, i - s + n) =~= a.subrange(i, i + n));
    } else {
        if i + n > s {
            assert(a.subrange(i, i + n)[s - 1 - i] == a[s - 1]);
            assert(t[s - 1 - i] == '\n');
        }
        assert(a.subrange(0, s).subrange(i, i + n) =~= a.subrange(i, i + n));
    }
}

/// Where no marker of a raw reply lies before its trailing line, the cleaned
/// reply holds no marker.
pub proof fn lemma_cleaned_holds_no_marker(
    raw: Seq<char>,
    command: Seq<char>,
    terms: Seq<Seq<char>>,
)
    requires
        forall|k: int| 0 <= k < terms.len() ==> is_marker(#[trigger] terms[k]),
        !any_marker(
            strip_echo(raw, command).subrange(0, prompt_start(strip_echo(raw, command))),
            terms,
        ),
    ensures
        !any_marker(cleaned(raw, command, terms), terms),
{
    let a = strip_echo(raw, command);
    let s = prompt_start(a);
    let b = strip_prompt(a, terms);
    let c = cleaned(raw, command, terms);
    if any_marker(c, terms) {
        let k = choose|k: int| 0 <= k < terms.len() && contains(c, #[trigger] terms[k]);
        let t = terms[k];
        lemma_cleaned_contains(raw, command, terms, t);
        if b == a {
            let i = choose|i: int| occurs_at(a, t, i);
            lemma_marker_side(a, t, i);
            if i >= s {
                assert(contains(a.subrange(s, a.len() as int), t));
                assert(any_marker(a.subrange(s, a.len() as int), terms));
                lemma_prompt_start_bounds(a);
                assert(a.subrange(0, s).len() == a.len());
                assert(a.subrange(0, s) =~= a);
            } else {
                assert(contains(a.subrange(0, s), t));
            }
        }
        assert(contains(a.subrange(0, s), t));
        assert(false);
    }
}

/// Where the command's text does not occur again after its echo line, the
/// cleaned reply does not start with a line that echoes the command.
pub proof fn lemma_cleaned_drops_echo(raw: Seq<char>, command: Seq<char>, terms: Seq<Seq<char>>)
    requires
        !contains(strip_echo(raw, command), command),
    ensures
        first_line(cleaned(raw, command, terms)) != command,
        !is_echo(first_line(cleaned(raw, command, terms)), command),
{
    let c = cleaned(raw, command, terms);
    if is_echo(first_line(c), command) {
        lemma_line_end_bounds(c, 0);
        assert(c.subrange(0, command.len() as int) =~= first_line(c).subrange(
            0,
            command.len() as int,
        ));
        assert(command.push('\r').subrange(0, command.len() as int) =~= command);
        assert(command.subrange(0, command.len() as int) =~= command);
        assert(occurs_at(c, command, 0));
        lemma_cleaned_contains(raw, command, terms, command);
    }
}

/// A reply that is a prompt marker and nothing else cleans to the empty
/// reply: alone, followed by a line break, after the echoed command line,
/// and with carriage returns before the line breaks.
pub proof fn lemma_prompt_alone_is_empty(command: Seq<char>, terms: Seq<Seq<char>>, k: int)
    requires
        forall|j: int| 0 <= j < terms.len() ==> is_marker(#[trigger] terms[j]),
        0 <= k < terms.len(),
        forall|j: int| 0 <= j < command.len() ==> command[j] != '\n',
    ensures
        cleaned(terms[k], command, terms) == Seq::<char>::empty(),
        cleaned(terms[k] + seq!['\n'], command, terms) == Seq::<char>::empty(),
        cleaned(command + seq!['\n'] + terms[k], command, terms) == Seq::<char>::empty(),
        cleaned(command + seq!['\n'] + terms[k] + seq!['\n'], command, terms) == Seq::<
            char,
        >::empty(),
        cleaned(command + seq!['\r', '\n'] + terms[k] + seq!['\r', '\n'], command, terms)
            == Seq::<char>::empty(),
{
    let t = terms[k];
    let none = Seq::<char>::empty();
    let lf = seq!['\n'];
    let crlf = seq!['\r', '\n'];
    assert(is_marker(t));
    lemma_body_of_nothing(terms);
    lemma_body_of_marker(terms, k, none);
    lemma_body_of_marker(terms, k, lf);
    lemma_body_of_marker(terms, k, crlf);
    assert(t + none =~= t);
    // The marker alone.
    lemma_line_end_bounds(t, 0);
    assert(strip_echo(t, command) == t || strip_echo(t, command) == none);
    // The marker and a line break.
    let second = t + lf;
    lemma_line_end_bounds(second, 0);
    assert(second[t.len() as int] == '\n');
    assert(forall|j: int| 0 <= j < t.len() ==> second[j] == t[j]);
    assert(line_end(second, 0) == t.len());
    assert(second.subrange(t.len() as int + 1, second.len() as int) =~= none);
    assert(strip_echo(second, command) == second || strip_echo(second, command) == none);
    // The echoed command line, then the marker.
    let third = command + lf + t;
    let n = command.len() as int;
    lemma_line_end_bounds(third, 0);
    assert(third[n] == '\n');
    assert(forall|j: int| 0 <= j < n ==> third[j] == command[j]);
    assert(line_end(third, 0) == n);
    assert(first_line(third) =~= command);
    assert(third.subrange(n + 1, third.len() as int) =~= t);
    // The echoed command line, the marker and a line break.
    let with_break = command + lf + t + lf;
    lemma_line_end_bounds(with_break, 0);
    assert(with_break[n] == '\n');
    assert(forall|j: int| 0 <= j < n ==> with_break[j] == command[j]);
    assert(line_end(with_break, 0) == n);
    assert(first_line(with_break) =~= command);
    assert(with_break.subrange(n + 1, with_break.len() as int) =~= t + lf);
    // The same with carriage returns.
    let fourth = command + crlf + t + crlf;
    lemma_line_end_bounds(fourth, 0);
    assert(fourth[n] == '\r');
    assert(fourth[n + 1] == '\n');
    assert(forall|j: int| 0 <= j < n ==> fourth[j] == command[j]);
    assert(line_end(fourth, 0) == n + 1);
    assert(first_line(fourth) =~= command.push('\r'));
    assert(fourth.subrange(n + 2, fourth.len() as int) =~= t + crlf);
}

proof fn lemma_body_of_nothing(terms: Seq<Seq<char>>)
    requires
        forall|j: int| 0 <= j < terms.len() ==> is_marker(#[trigger] terms[j]),
    ensures
        cleaned_body(Seq::<char>::empty(), terms) == Seq::<char>::empty(),
{
    let none = Seq::<char>::empty();
    assert(none.subrange(0, 0) =~= none);
    assert(strip_prompt(none, terms) =~= none);
}

/// A marker with nothing but white space after it cleans to nothing.
proof fn lemma_body_of_marker(terms: Seq<Seq<char>>, k: int, w: Seq<char>)
    requires
        forall|j: int| 0 <= j < terms.len() ==> is_marker(#[trigger] terms[j]),
        0 <= k < terms.len(),
        forall|j: int| 0 <= j < w.len() ==> is_space(#[trigger] w[j]),
    ensures
        cleaned_body(terms[k] + w, terms) == Seq::<char>::empty(),
{
    let t = terms[k];
    let s = t + w;
    assert(is_marker(t));
    lemma_space_tail(t, w);
    lemma_one_line_starts_at_zero(t);
    assert(prompt_start(s) == 0);
    assert(s.subrange(0, s.len() as int) =~= s);
    assert(s.subrange(0, t.len() as int) =~= t);
    assert(occurs_at(s, t, 0));
    assert(contains(s, terms[k]));
    assert(any_marker(s, terms));
    assert(strip_prompt(s, terms) =~= Seq::<char>::empty());
}

} // verus!
