//! Small verified helpers over strings, viewed as sequences of characters.

use vstd::prelude::*;

verus! {

/// `String::push` of the standard library: the character is appended at the end
/// and nothing else changes.
pub assume_specification[ String::push ](s: &mut String, c: char)
    ensures
        final(s)@ == old(s)@.push(c),
;

/// `==` on string slices of the standard library: two slices are equal exactly
/// when they hold the same characters in the same order.
pub assume_specification[ <str as PartialEq>::eq ](a: &str, b: &str) -> (r: bool)
    ensures
        r == (a@ == b@),
;

/// The characters of `s`, in order.
pub fn to_chars(s: &str) -> (v: Vec<char>)
    ensures
        v@ == s@,
{
    let mut v: Vec<char> = Vec::new();
    for c in it: s.chars()
        invariant
            v@ == it.seq().take(it.index() as int),
            it.seq() == s@,
    {
        v.push(c);
    }
    v
}

/// The string made of the characters `v[from..to]`.
pub(crate) fn from_chars_range(v: &Vec<char>, from: usize, to: usize) -> (s: String)
    requires
        from <= to <= v.len(),
    ensures
        s@ == v@.subrange(from as int, to as int),
{
    let mut s = String::new();
    let mut i: usize = from;
    while i < to
        invariant
            from <= i <= to <= v.len(),
            s@ == v@.subrange(from as int, i as int),
        decreases to - i,
    {
        s.push(v[i]);
        i += 1;
        assert(v@.subrange(from as int, i as int) == v@.subrange(from as int, i - 1).push(
            v@[i - 1],
        ));
    }
    s
}

/// Whether `s` begins with the characters of `prefix`.
pub fn starts_with(s: &str, prefix: &str) -> (r: bool)
    ensures
        r == prefix@.is_prefix_of(s@),
{
    let sv = to_chars(s);
    let pv = to_chars(prefix);
    if pv.len() > sv.len() {
        return false;
    }
    let mut i: usize = 0;
    while i < pv.len()
        invariant
            i <= pv.len() <= sv.len(),
            sv@ == s@,
            pv@ == prefix@,
            forall|j: int| 0 <= j < i ==> sv@[j] == pv@[j],
        decreases pv.len() - i,
    {
        if sv[i] != pv[i] {
            return false;
        }
        i += 1;
    }
    assert(prefix@ == s@.subrange(0, prefix@.len() as int));
    true
}

/// Appends the characters of `tail` to `out`.
pub fn push_str(out: &mut String, tail: &str)
    ensures
        final(out)@ == old(out)@ + tail@,
{
    let chars = to_chars(tail);
    let mut i: usize = 0;
    while i < chars.len()
        invariant
            i <= chars.len(),
            chars@ == tail@,
            out@ == old(out)@ + chars@.take(i as int),
        decreases chars.len() - i,
    {
        out.push(chars[i]);
        i += 1;
        assert(chars@.take(i as int) =~= chars@.take(i - 1).push(chars@[i - 1]));
        assert(out@ =~= old(out)@ + chars@.take(i as int));
    }
    assert(chars@.take(0) =~= Seq::<char>::empty());
    assert(old(out)@ + Seq::<char>::empty() =~= old(out)@);
    assert(chars@.take(chars.len() as int) =~= chars@);
}

/// The parts written one after the other with `separator` between them.
pub open spec fn spec_join(parts: Seq<Seq<char>>, separator: Seq<char>) -> Seq<char>
    decreases parts.len(),
{
    if parts.len() == 0 {
        Seq::<char>::empty()
    } else if parts.len() == 1 {
        parts[0]
    } else {
        spec_join(parts.drop_last(), separator) + separator + parts.last()
    }
}

/// Writes the parts one after the other with `separator` between them.
pub fn join_with(parts: &Vec<String>, separator: &str) -> (text: String)
    ensures
        text@ == spec_join(words(parts@), separator@),
{
    let mut text = String::new();
    let mut i: usize = 0;
    while i < parts.len()
        invariant
            i <= parts.len(),
            text@ == spec_join(words(parts@).take(i as int), separator@),
        decreases parts.len() - i,
    {
        proof {
            assert(words(parts@).take(i + 1).drop_last() =~= words(parts@).take(i as int));
        }
        if i > 0 {
            push_str(&mut text, separator);
        }
        push_str(&mut text, parts[i].as_str());
        assert(text@ =~= spec_join(words(parts@).take(i + 1), separator@));
        i += 1;
    }
    assert(words(parts@).take(parts.len() as int) =~= words(parts@));
    text
}

/// `head` followed by `tail`.
pub fn concat(head: &str, tail: &str) -> (text: String)
    ensures
        text@ == head@ + tail@,
{
    let mut text = head.to_string();
    push_str(&mut text, tail);
    text
}

/// The words of a list of strings, as sequences of characters.
pub open spec fn words(list: Seq<String>) -> Seq<Seq<char>> {
    list.map_values(|w: String| w@)
}

/// Whether two strings hold the same characters.
pub fn string_eq(a: &String, b: &String) -> (r: bool)
    ensures
        r == (a@ == b@),
{
    *a == *b
}

/// Whether two lists hold the same words in the same order.
pub fn words_eq(a: &Vec<String>, b: &Vec<String>) -> (r: bool)
    ensures
        r == (words(a@) == words(b@)),
{
    if a.len() != b.len() {
        assert(words(a@).len() != words(b@).len());
        return false;
    }
    let mut i: usize = 0;
    while i < a.len()
        invariant
            i <= a.len(),
            a.len() == b.len(),
            forall|j: int| 0 <= j < i ==> a@[j]@ == b@[j]@,
        decreases a.len() - i,
    {
        if !string_eq(&a[i], &b[i]) {
            assert(words(a@)[i as int] != words(b@)[i as int]);
            return false;
        }
        i += 1;
    }
    assert(words(a@) =~= words(b@));
    true
}

/// A copy of a list of strings.
pub fn clone_words(list: &Vec<String>) -> (r: Vec<String>)
    ensures
        r@ == list@,
{
    let mut r: Vec<String> = Vec::new();
    let mut i: usize = 0;
    while i < list.len()
        invariant
            i <= list.len(),
            r@ == list@.take(i as int),
        decreases list.len() - i,
    {
        r.push(list[i].clone());
        i += 1;
        assert(list@.take(i as int) =~= list@.take(i - 1).push(list@[i - 1]));
    }
    assert(list@.take(list.len() as int) =~= list@);
    r
}

/// The character that writes the digit `d`.
pub open spec fn digit_char(d: nat) -> char {
    if d == 0 {
        '0'
    } else if d == 1 {
        '1'
    } else if d == 2 {
        '2'
    } else if d == 3 {
        '3'
    } else if d == 4 {
        '4'
    } else if d == 5 {
        '5'
    } else if d == 6 {
        '6'
    } else if d == 7 {
        '7'
    } else if d == 8 {
        '8'
    } else {
        '9'
    }
}

/// `n` written in base ten, without leading zeros.
pub open spec fn decimal(n: nat) -> Seq<char>
    decreases n,
{
    if n < 10 {
        seq![digit_char(n)]
    } else {
        decimal(n / 10).push(digit_char(n % 10))
    }
}

/// `n` written in base ten, with a minus sign when it is negative.
pub open spec fn signed_decimal(n: int) -> Seq<char> {
    if n < 0 {
        seq!['-'] + decimal((-n) as nat)
    } else {
        decimal(n as nat)
    }
}

fn digit_to_char(d: u64) -> (c: char)
    requires
        d < 10,
    ensures
        c == digit_char(d as nat),
{
    if d == 0 {
        '0'
    } else if d == 1 {
        '1'
    } else if d == 2 {
        '2'
    } else if d == 3 {
        '3'
    } else if d == 4 {
        '4'
    } else if d == 5 {
        '5'
    } else if d == 6 {
        '6'
    } else if d == 7 {
        '7'
    } else if d == 8 {
        '8'
    } else {
        '9'
    }
}

/// Appends `n` in base ten to `out`.
pub fn push_decimal(out: &mut String, n: u64)
    ensures
        final(out)@ == old(out)@ + decimal(n as nat),
    decreases n,
{
    if n >= 10 {
        push_decimal(out, n / 10);
    }
    out.push(digit_to_char(n % 10));
    assert(final(out)@ =~= old(out)@ + decimal(n as nat));
}

/// `n` in base ten.
pub fn u64_to_string(n: u64) -> (s: String)
    ensures
        s@ == decimal(n as nat),
{
    let mut s = String::new();
    push_decimal(&mut s, n);
    assert(Seq::<char>::empty() + decimal(n as nat) =~= decimal(n as nat));
    s
}

/// `n` in base ten, with a minus sign when it is negative.
pub fn i32_to_string(n: i32) -> (s: String)
    ensures
        s@ == signed_decimal(n as int),
{
    let mut s = String::new();
    let wide: i64 = n as i64;
    if wide < 0 {
        s.push('-');
        push_decimal(&mut s, (0 - wide) as u64);
        assert(s@ =~= seq!['-'] + decimal((-n) as nat));
    } else {
        push_decimal(&mut s, wide as u64);
        assert(s@ =~= decimal(n as nat));
    }
    s
}

/// `a` comes before `b` in the order of the dictionary, where characters go
/// by their code points. This is the order in which strings sort.
pub open spec fn lex_lt(a: Seq<char>, b: Seq<char>) -> bool
    decreases a.len(),
{
    if b.len() == 0 {
        false
    } else if a.len() == 0 {
        true
    } else if (a[0] as u32) < (b[0] as u32) {
        true
    } else if (a[0] as u32) > (b[0] as u32) {
        false
    } else {
        lex_lt(a.subrange(1, a.len() as int), b.subrange(1, b.len() as int))
    }
}

/// Of two different texts one comes before the other, and no text comes
/// before itself.
pub proof fn lemma_lex_total(a: Seq<char>, b: Seq<char>)
    ensures
        a != b ==> lex_lt(a, b) || lex_lt(b, a),
        !(lex_lt(a, b) && lex_lt(b, a)),
        a == b ==> !lex_lt(a, b),
    decreases a.len(),
{
    if a.len() > 0 && b.len() > 0 {
        let ta = a.subrange(1, a.len() as int);
        let tb = b.subrange(1, b.len() as int);
        lemma_lex_total(ta, tb);
        if (a[0] as u32) == (b[0] as u32) {
            vstd::utf8::char_u32_cast(a[0], a[0] as u32);
            vstd::utf8::char_u32_cast(b[0], b[0] as u32);
            assert(a[0] == b[0]);
            if ta == tb {
                assert(a =~= seq![a[0]] + ta);
                assert(b =~= seq![b[0]] + tb);
            }
        }
        if a == b {
            assert(ta == tb);
        }
    } else if a.len() == 0 && b.len() == 0 {
        assert(a =~= b);
    }
}

/// How two texts stand to each other.
#[derive(PartialEq, Eq, Structural, Clone, Copy, Debug)]
pub enum Placement {
    Before,
    Same,
    After,
}

/// Where `a` stands against `b` in the order of the dictionary.
pub fn place(a: &str, b: &str) -> (r: Placement)
    ensures
        r is Before <==> lex_lt(a@, b@),
        r is Same <==> a@ == b@,
        r is After <==> lex_lt(b@, a@),
{
    let x = to_chars(a);
    let y = to_chars(b);
    let mut i: usize = 0;
    proof {
        lemma_lex_total(a@, b@);
        assert(x@.subrange(0, x.len() as int) =~= x@);
        assert(y@.subrange(0, y.len() as int) =~= y@);
    }
    while i < x.len() && i < y.len()
        invariant
            i <= x.len(),
            i <= y.len(),
            x@ == a@,
            y@ == b@,
            x@.subrange(0, i as int) == y@.subrange(0, i as int),
            lex_lt(a@, b@) == lex_lt(x@.subrange(i as int, x.len() as int), y@.subrange(i as int, y.len() as int)),
            lex_lt(b@, a@) == lex_lt(y@.subrange(i as int, y.len() as int), x@.subrange(i as int, x.len() as int)),
        decreases x.len() - i,
    {
        let ghost rx = x@.subrange(i as int, x.len() as int);
        let ghost ry = y@.subrange(i as int, y.len() as int);
        assert(rx[0] == x@[i as int] && ry[0] == y@[i as int]);
        assert(rx.subrange(1, rx.len() as int) =~= x@.subrange(i + 1, x.len() as int));
        assert(ry.subrange(1, ry.len() as int) =~= y@.subrange(i + 1, y.len() as int));
        let cx = x[i] as u32;
        let cy = y[i] as u32;
        if cx < cy {
            assert(a@ != b@);
            return Placement::Before;
        }
        if cx > cy {
            assert(a@ != b@);
            return Placement::After;
        }
        proof {
            vstd::utf8::char_u32_cast(x@[i as int], cx);
            vstd::utf8::char_u32_cast(y@[i as int], cy);
        }
        assert(x@[i as int] == y@[i as int]);
        assert(x@.subrange(0, i + 1) =~= x@.subrange(0, i as int).push(x@[i as int]));
        assert(y@.subrange(0, i + 1) =~= y@.subrange(0, i as int).push(y@[i as int]));
        i += 1;
    }
    if x.len() == y.len() {
        assert(x@ =~= x@.subrange(0, i as int));
        assert(y@ =~= y@.subrange(0, i as int));
        Placement::Same
    } else if i == x.len() {
        assert(x@.subrange(i as int, x.len() as int).len() == 0);
        Placement::Before
    } else {
        assert(y@.subrange(i as int, y.len() as int).len() == 0);
        Placement::After
    }
}

/// Each text comes before the one after it: the list is sorted and holds
/// nothing twice.
pub open spec fn ascending(list: Seq<Seq<char>>) -> bool {
    forall|i: int| 0 <= i < list.len() - 1 ==> lex_lt(#[trigger] list[i], list[i + 1])
}

/// The texts of `list` in the order of the dictionary, each once.
pub fn sorted_unique(list: Vec<String>) -> (out: Vec<String>)
    ensures
        ascending(words(out@)),
        forall|s: Seq<char>| words(out@).contains(s) <==> words(list@).contains(s),
{
    let mut out: Vec<String> = Vec::new();
    let count = list.len();
    let mut rest = list;
    let ghost all = words(list@);
    let ghost mut done: int = 0;
    while rest.len() > 0
        invariant
            all == words(list@),
            all.len() == count,
            0 <= done <= all.len(),
            done + rest@.len() == all.len(),
            words(rest@) == all.subrange(done, all.len() as int),
            ascending(words(out@)),
            forall|s: Seq<char>| words(out@).contains(s) <==> all.subrange(0, done).contains(s),
        decreases rest@.len(),
    {
        let ghost rest_before = words(rest@);
        assert(rest_before[0] == all[done]);
        let item = rest.remove(0);
        assert(item@ == rest_before[0]);
        assert(words(rest@) =~= rest_before.subrange(1, rest_before.len() as int));
        assert(words(rest@) =~= all.subrange(done + 1, all.len() as int));
        let ghost before = words(out@);
        let mut p: usize = 0;
        let mut stop = false;
        let mut present = false;
        while p < out.len() && !stop
            invariant
                p <= out.len(),
                before == words(out@),
                forall|j: int| 0 <= j < p ==> lex_lt(#[trigger] before[j], item@),
                stop ==> p < out.len() && !lex_lt(before[p as int], item@),
                present ==> stop && before[p as int] == item@,
                stop && !present ==> before[p as int] != item@,
            decreases out.len() - p + (if stop { 0int } else { 1int }),
        {
            match place(out[p].as_str(), item.as_str()) {
                Placement::Before => {
                    p += 1;
                },
                Placement::Same => {
                    stop = true;
                    present = true;
                },
                Placement::After => {
                    stop = true;
                },
            }
        }
        proof {
            assert(all.subrange(0, done + 1) =~= all.subrange(0, done).push(item@));
        }
        if present {
            proof {
                assert(before[p as int] == item@);
                assert forall|s: Seq<char>| before.contains(s) <==> all.subrange(
                    0,
                    done + 1,
                ).contains(s) by {
                    if all.subrange(0, done + 1).contains(s) {
                        let k = all.subrange(0, done + 1).index_of(s);
                        if k < done {
                            assert(all.subrange(0, done)[k] == s);
                        }
                    }
                    if before.contains(s) {
                        let k = all.subrange(0, done).index_of(s);
                        assert(all.subrange(0, done + 1)[k] == s);
                    }
                }
            }
        } else {
            proof {
                if p < out.len() {
                    lemma_lex_total(before[p as int], item@);
                }
            }
            out.insert(p, item);
            proof {
                let after = words(out@);
                assert(after =~= before.insert(p as int, item@));
                assert forall|i: int| 0 <= i < after.len() - 1 implies lex_lt(
                    #[trigger] after[i],
                    after[i + 1],
                ) by {
                    if i + 1 < p {
                        assert(after[i] == before[i] && after[i + 1] == before[i + 1]);
                    } else if i + 1 == p {
                        assert(after[i] == before[i]);
                    } else if i == p {
                        assert(after[i + 1] == before[i]);
                    } else {
                        assert(after[i] == before[i - 1] && after[i + 1] == before[i]);
                        assert(lex_lt(before[i - 1], before[i - 1 + 1]));
                    }
                }
                assert forall|s: Seq<char>| after.contains(s) <==> all.subrange(
                    0,
                    done + 1,
                ).contains(s) by {
                    if after.contains(s) {
                        let k = after.index_of(s);
                        if k < p {
                            assert(before[k] == s);
                        } else if k > p {
                            assert(before[k - 1] == s);
                        }
                        if s != item@ {
                            assert(before.contains(s));
                            let m = all.subrange(0, done).index_of(s);
                            assert(all.subrange(0, done + 1)[m] == s);
                        } else {
                            assert(all.subrange(0, done + 1)[done] == s);
                        }
                    }
                    if all.subrange(0, done + 1).contains(s) {
                        let k = all.subrange(0, done + 1).index_of(s);
                        if k < done {
                            assert(all.subrange(0, done)[k] == s);
                            assert(before.contains(s));
                            let m = before.index_of(s);
                            if m < p {
                                assert(after[m] == s);
                            } else {
                                assert(after[m + 1] == s);
                            }
                        } else {
                            assert(after[p as int] == s);
                        }
                    }
                }
            }
        }
        proof {
            done = done + 1;
        }
    }
    assert(all.subrange(0, done) =~= all);
    out
}

/// The digit that `c` writes, if it writes one.
pub open spec fn digit_value(c: char) -> Option<nat> {
    if c == '0' {
        Some(0)
    } else if c == '1' {
        Some(1)
    } else if c == '2' {
        Some(2)
    } else if c == '3' {
        Some(3)
    } else if c == '4' {
        Some(4)
    } else if c == '5' {
        Some(5)
    } else if c == '6' {
        Some(6)
    } else if c == '7' {
        Some(7)
    } else if c == '8' {
        Some(8)
    } else if c == '9' {
        Some(9)
    } else {
        None
    }
}

/// The number that a text of digits writes in base ten. An empty text writes
/// zero; a text with anything but digits writes nothing.
pub open spec fn digits_value(text: Seq<char>) -> Option<nat>
    decreases text.len(),
{
    if text.len() == 0 {
        Some(0)
    } else {
        match (digits_value(text.drop_last()), digit_value(text.last())) {
            (Some(high), Some(low)) => Some(high * 10 + low),
            _ => None,
        }
    }
}

/// The text without the `+` that may stand before its digits.
pub open spec fn unsigned_body(text: Seq<char>) -> Seq<char> {
    if text.len() > 0 && text[0] == '+' {
        text.subrange(1, text.len() as int)
    } else {
        text
    }
}

/// What a text parses to as an unsigned number: digits, with at most one
/// `+` before them, whose value the machine's word holds.
pub open spec fn spec_parse_usize(text: Seq<char>) -> Option<usize> {
    let body = unsigned_body(text);
    if body.len() == 0 {
        None
    } else {
        match digits_value(body) {
            Some(value) => if value <= usize::MAX {
                Some(value as usize)
            } else {
                None
            },
            None => None,
        }
    }
}

/// A text of digits writes at least what any of its beginnings writes.
pub proof fn lemma_digits_value_grows(text: Seq<char>, n: int)
    requires
        0 <= n <= text.len(),
        digits_value(text) is Some,
    ensures
        digits_value(text.take(n)) is Some,
        digits_value(text.take(n))->0 <= digits_value(text)->0,
    decreases text.len() - n,
{
    if n == text.len() {
        assert(text.take(n) =~= text);
    } else {
        lemma_digits_value_grows(text.drop_last(), n);
        assert(text.drop_last().take(n) =~= text.take(n));
    }
}

fn char_digit(c: char) -> (r: Option<usize>)
    ensures
        match r {
            Some(d) => digit_value(c) == Some(d as nat) && d < 10,
            None => digit_value(c) is None,
        },
{
    if c == '0' {
        Some(0)
    } else if c == '1' {
        Some(1)
    } else if c == '2' {
        Some(2)
    } else if c == '3' {
        Some(3)
    } else if c == '4' {
        Some(4)
    } else if c == '5' {
        Some(5)
    } else if c == '6' {
        Some(6)
    } else if c == '7' {
        Some(7)
    } else if c == '8' {
        Some(8)
    } else if c == '9' {
        Some(9)
    } else {
        None
    }
}

/// Parses an unsigned number as the standard library does: digits in base
/// ten, with at most one `+` before them; nothing else, and no number that
/// the machine's word does not hold.
pub fn parse_usize(text: &str) -> (r: Option<usize>)
    ensures
        r == spec_parse_usize(text@),
{
    let chars = to_chars(text);
    let start: usize = if chars.len() > 0 && chars[0] == '+' {
        1
    } else {
        0
    };
    if start == chars.len() {
        return None;
    }
    let ghost body = chars@.subrange(start as int, chars.len() as int);
    assert(body =~= unsigned_body(text@));
    let mut value: usize = 0;
    let mut i: usize = start;
    assert(body.take(0) =~= Seq::<char>::empty());
    while i < chars.len()
        invariant
            start <= i <= chars.len(),
            chars@ == text@,
            body == chars@.subrange(start as int, chars.len() as int),
            body == unsigned_body(text@),
            body.len() > 0,
            digits_value(body.take(i - start)) == Some(value as nat),
        decreases chars.len() - i,
    {
        proof {
            assert(body.take(i - start + 1).drop_last() =~= body.take(i - start));
            assert(body.take(i - start + 1).last() == chars@[i as int]);
        }
        let digit = match char_digit(chars[i]) {
            Some(d) => d,
            None => {
                proof {
                    if digits_value(body) is Some {
                        lemma_digits_value_grows(body, i - start + 1);
                    }
                }
                return None;
            },
        };
        if value > (usize::MAX - digit) / 10 {
            proof {
                if digits_value(body) is Some {
                    lemma_digits_value_grows(body, i - start + 1);
                }
            }
            return None;
        }
        value = value * 10 + digit;
        i += 1;
    }
    assert(body.take(chars.len() - start) =~= body);
    Some(value)
}

/// A number written in base ten parses back to itself.
pub proof fn lemma_decimal_parses_back(n: nat)
    ensures
        digits_value(decimal(n)) == Some(n),
        decimal(n).len() > 0,
        decimal(n)[0] != '+',
        n <= usize::MAX ==> spec_parse_usize(decimal(n)) == Some(n as usize),
    decreases n,
{
    if n < 10 {
        assert(decimal(n).drop_last() =~= Seq::<char>::empty());
        assert(decimal(n).last() == digit_char(n));
    } else {
        lemma_decimal_parses_back(n / 10);
        assert(decimal(n).drop_last() =~= decimal(n / 10));
        assert(decimal(n).last() == digit_char(n % 10));
        assert(decimal(n)[0] == decimal(n / 10)[0]);
    }
}

} // verus!
