//! The texts that the adapter shows: numbers, lists and file names.

use vstd::prelude::*;
use vstd::string::*;

verus! {

/// The digit of value `d`, for bases up to sixteen.
pub open spec fn digit(d: nat) -> char {
    if d < 10 {
        (0x30 + d) as char
    } else {
        (0x57 + d) as char
    }
}

/// The digits of `n` in the given base, most significant first, without leading zeros.
pub open spec fn digits(n: nat, base: nat) -> Seq<char>
    decreases n,
{
    if n < base || base < 2 {
        seq![digit(n)]
    } else {
        proof {
            assert(n / base < n) by (nonlinear_arith)
                requires
                    n >= base,
                    base >= 2,
            ;
        }
        digits(n / base, base).push(digit(n % base))
    }
}

/// `n` in decimal.
pub open spec fn decimal(n: int) -> Seq<char> {
    if n < 0 {
        seq!['-'] + digits((-n) as nat, 10)
    } else {
        digits(n as nat, 10)
    }
}

/// `n` in hexadecimal, with the prefix `0x`.
pub open spec fn hexadecimal(n: nat) -> Seq<char> {
    seq!['0', 'x'] + digits(n, 16)
}

/// The parts, with `separator` between each two neighbours.
pub open spec fn joined(parts: Seq<Seq<char>>, separator: Seq<char>) -> Seq<char>
    decreases parts.len(),
{
    if parts.len() == 0 {
        Seq::empty()
    } else if parts.len() == 1 {
        parts[0]
    } else {
        joined(parts.drop_last(), separator) + separator + parts.last()
    }
}

/// What an optional text holds.
pub open spec fn text_view(text: Option<String>) -> Option<Seq<char>> {
    match text {
        Some(text) => Some(text@),
        None => None,
    }
}

/// What each of a list of texts holds.
pub open spec fn texts_view(texts: Seq<String>) -> Seq<Seq<char>> {
    Seq::new(texts.len(), |i: int| texts[i]@)
}

/// Where the part of `path` behind its last slash begins.
pub open spec fn last_component_start(path: Seq<char>) -> nat
    decreases path.len(),
{
    if path.len() == 0 || path.last() == '/' {
        path.len()
    } else {
        last_component_start(path.drop_last())
    }
}

/// The final component of a path whose separator is the slash. Empty components and `.`
/// do not count; there is none where the path is made of those alone or ends in `..`.
pub open spec fn file_name(path: Seq<char>) -> Option<Seq<char>>
    decreases path.len(),
{
    let start = last_component_start(path);
    let component = path.skip(start as int);
    if component == Seq::<char>::empty() || component == seq!['.'] {
        if 0 < start <= path.len() {
            file_name(path.take(start - 1))
        } else {
            None
        }
    } else if component == seq!['.', '.'] {
        None
    } else {
        Some(component)
    }
}

proof fn lemma_digit_injective(a: nat, b: nat)
    requires
        a < 16,
        b < 16,
        digit(a) == digit(b),
    ensures
        a == b,
{
}

/// Different numbers have different digits, in any base up to sixteen.
pub proof fn law_digits_injective(a: nat, b: nat, base: nat)
    requires
        2 <= base <= 16,
        digits(a, base) == digits(b, base),
    ensures
        a == b,
    decreases a,
{
    assert(digits(a, base).last() == digits(b, base).last());
    assert(digits(a, base).drop_last() == digits(b, base).drop_last());
    if a < base && b < base {
        assert(digits(a, base).last() == digit(a));
        assert(digits(b, base).last() == digit(b));
        lemma_digit_injective(a, b);
    } else if a < base {
        assert(digits(b / base, base).len() > 0);
        assert(digits(a, base).len() == 1);
        assert(digits(b, base).len() == digits(b / base, base).len() + 1);
    } else if b < base {
        assert(digits(a / base, base).len() > 0);
        assert(digits(b, base).len() == 1);
        assert(digits(a, base).len() == digits(a / base, base).len() + 1);
    } else {
        assert(a / base < a) by (nonlinear_arith)
            requires
                a >= base,
                base >= 2,
        ;
        assert(a % base < base && b % base < base) by (nonlinear_arith)
            requires
                base >= 2,
        ;
        assert(digits(a, base).drop_last() == digits(a / base, base));
        assert(digits(b, base).drop_last() == digits(b / base, base));
        assert(digits(a, base).last() == digit(a % base));
        assert(digits(b, base).last() == digit(b % base));
        lemma_digit_injective(a % base, b % base);
        law_digits_injective(a / base, b / base, base);
        assert(a == b) by (nonlinear_arith)
            requires
                a / base == b / base,
                a % base == b % base,
                base >= 2,
        ;
    }
}

proof fn lemma_digits_not_minus(n: nat)
    ensures
        digits(n, 10).len() > 0,
        digits(n, 10)[0] != '-',
    decreases n,
{
    if n >= 10 {
        lemma_digits_not_minus(n / 10);
    }
}

/// Different numbers, negative ones among them, are written differently.
pub proof fn law_decimal_injective(a: int, b: int)
    requires
        decimal(a) == decimal(b),
    ensures
        a == b,
{
    let below_a = if a < 0 {
        (-a) as nat
    } else {
        a as nat
    };
    let below_b = if b < 0 {
        (-b) as nat
    } else {
        b as nat
    };
    lemma_digits_not_minus(below_a);
    lemma_digits_not_minus(below_b);
    assert(decimal(a)[0] == decimal(b)[0]);
    if a < 0 {
        assert(decimal(a).skip(1) =~= digits(below_a, 10));
        assert(decimal(b).skip(1) =~= digits(below_b, 10));
    }
    law_digits_injective(below_a, below_b, 10);
}

fn digit_text(d: u64) -> (r: &'static str)
    requires
        d < 16,
    ensures
        r@ == seq![digit(d as nat)],
{
    proof {
        reveal_strlit("0");
        reveal_strlit("1");
        reveal_strlit("2");
        reveal_strlit("3");
        reveal_strlit("4");
        reveal_strlit("5");
        reveal_strlit("6");
        reveal_strlit("7");
        reveal_strlit("8");
        reveal_strlit("9");
        reveal_strlit("a");
        reveal_strlit("b");
        reveal_strlit("c");
        reveal_strlit("d");
        reveal_strlit("e");
        reveal_strlit("f");
    }
    let r = match d {
        0 => "0",
        1 => "1",
        2 => "2",
        3 => "3",
        4 => "4",
        5 => "5",
        6 => "6",
        7 => "7",
        8 => "8",
        9 => "9",
        10 => "a",
        11 => "b",
        12 => "c",
        13 => "d",
        14 => "e",
        _ => "f",
    };
    assert(r@ =~= seq![digit(d as nat)]);
    r
}

fn digits_text(n: u64, base: u64) -> (r: String)
    requires
        2 <= base <= 16,
    ensures
        r@ == digits(n as nat, base as nat),
    decreases n,
{
    if n < base {
        digit_text(n).to_owned()
    } else {
        assert(n / base < n) by (nonlinear_arith)
            requires
                n >= base,
                base >= 2,
        ;
        let mut r = digits_text(n / base, base);
        assert(n % base < base) by (nonlinear_arith)
            requires
                base >= 2,
        ;
        r.append(digit_text(n % base));
        assert(r@ =~= digits(n as nat, base as nat));
        r
    }
}

/// Writes an unsigned number in decimal.
pub fn decimal_unsigned(n: u64) -> (r: String)
    ensures
        r@ == decimal(n as int),
{
    digits_text(n, 10)
}

/// Writes a signed number in decimal.
pub fn decimal_signed(n: i64) -> (r: String)
    ensures
        r@ == decimal(n as int),
{
    if n >= 0 {
        digits_text(n as u64, 10)
    } else {
        proof {
            reveal_strlit("-");
        }
        let magnitude: u64 = (-(n + 1)) as u64 + 1;
        let r = "-".to_owned().concat(digits_text(magnitude, 10).as_str());
        assert(r@ =~= decimal(n as int));
        r
    }
}

/// Writes an address in hexadecimal.
pub fn address_text(address: usize) -> (r: String)
    ensures
        r@ == hexadecimal(address as nat),
{
    proof {
        reveal_strlit("0x");
    }
    let r = "0x".to_owned().concat(digits_text(address as u64, 16).as_str());
    assert(r@ =~= hexadecimal(address as nat));
    r
}

/// Copies an optional text.
pub fn clone_text(text: &Option<String>) -> (r: Option<String>)
    ensures
        text_view(r) == text_view(*text),
{
    match text {
        Some(text) => Some(text.clone()),
        None => None,
    }
}

/// Joins the parts with a separator.
pub fn join(parts: &Vec<String>, separator: &str) -> (r: String)
    ensures
        r@ == joined(texts_view(parts@), separator@),
{
    let mut r = String::new();
    let ghost texts = texts_view(parts@);
    assert(texts.take(0).len() == 0);
    for i in 0..parts.len()
        invariant
            texts == texts_view(parts@),
            r@ == joined(texts.take(i as int), separator@),
    {
        let ghost shorter = texts.take(i as int);
        let ghost longer = texts.take(i + 1);
        assert(longer.drop_last() =~= shorter);
        assert(longer.last() == parts@[i as int]@);
        if i > 0 {
            r.append(separator);
        }
        r.append(parts[i].as_str());
        assert(r@ =~= joined(longer, separator@));
    }
    assert(texts.take(parts@.len() as int) =~= texts);
    r
}

fn chars_of(text: &str) -> (r: Vec<char>)
    ensures
        r@ == text@,
{
    broadcast use axiom_spec_iter;

    let mut r: Vec<char> = Vec::new();
    for c in iter: text.chars()
        invariant
            iter.seq() == text@,
            r@ == text@.take(iter.index() as int),
    {
        r.push(c);
    }
    r
}

fn find_last_component(path: &Vec<char>, end: usize) -> (start: usize)
    requires
        end <= path@.len(),
    ensures
        start == last_component_start(path@.take(end as int)),
        start <= end,
{
    let mut start: usize = end;
    while start > 0 && path[start - 1] != '/'
        invariant
            start <= end <= path@.len(),
            last_component_start(path@.take(start as int)) == last_component_start(
                path@.take(end as int),
            ),
        decreases start,
    {
        assert(path@.take(start as int).drop_last() =~= path@.take(start - 1));
        start = start - 1;
    }
    start
}

/// The final component of a path, if there is one.
pub fn path_file_name(path: &str) -> (r: Option<String>)
    ensures
        text_view(r) == file_name(path@),
{
    let chars = chars_of(path);
    let mut end: usize = chars.len();
    assert(path@.take(end as int) =~= path@);
    loop
        invariant
            chars@ == path@,
            end <= path@.len(),
            file_name(path@.take(end as int)) == file_name(path@),
        decreases end,
    {
        let start: usize = find_last_component(&chars, end);
        let ghost component = path@.take(end as int).skip(start as int);
        assert(component =~= path@.subrange(start as int, end as int));
        if start == end || (end - start == 1 && chars[start] == '.') {
            assert(component =~= Seq::<char>::empty() || component =~= seq!['.']);
            if start == 0 {
                return None;
            }
            assert(path@.take(end as int).take(start - 1) =~= path@.take(start - 1));
            end = start - 1;
        } else {
            assert(component.len() != 0);
            assert(component != seq!['.']) by {
                assert(component.len() == 1 ==> component[0] != seq!['.'][0]);
            }
            if end - start == 2 && chars[start] == '.' && chars[start + 1] == '.' {
                assert(component =~= seq!['.', '.']);
                return None;
            }
            assert(component != seq!['.', '.']) by {
                assert(component.len() == 2 ==> component[0] != seq!['.', '.'][0] || component[1]
                    != seq!['.', '.'][1]);
            }
            return Some(path.substring_char(start, end).to_owned());
        }
    }
}

/// What a digit stands for, read back from the character.
pub open spec fn digit_value(c: char) -> int {
    if c <= '9' {
        c as int - '0' as int
    } else {
        c as int - 'a' as int + 10
    }
}

/// The number that a text of digits stands for, read from the left.
pub open spec fn number_read(text: Seq<char>, base: int) -> int
    decreases text.len(),
{
    if text.len() == 0 {
        0
    } else {
        number_read(text.drop_last(), base) * base + digit_value(text.last())
    }
}

/// A number is read back from its digits, which are decimal digits or lower-case letters, at least
/// one, and do not begin with a needless zero.
pub proof fn law_digits_read_back(n: nat, base: nat)
    requires
        2 <= base <= 16,
    ensures
        number_read(digits(n, base), base as int) == n,
        digits(n, base).len() > 0,
        digits(n, base)[0] == '0' ==> n == 0 && digits(n, base).len() == 1,
        forall|i: int|
            0 <= i < digits(n, base).len() ==> {
                let c = #[trigger] digits(n, base)[i];
                ('0' <= c <= '9' || 'a' <= c <= 'f') && 0 <= digit_value(c) < base
            },
    decreases n,
{
    let text = digits(n, base);
    if n < base {
        assert(text.drop_last() =~= Seq::empty());
        assert(text.last() == digit(n));
        assert(number_read(text.drop_last(), base as int) == 0);
        assert(number_read(text.drop_last(), base as int) * base == 0) by (nonlinear_arith)
            requires
                number_read(text.drop_last(), base as int) == 0,
        ;
    } else {
        assert(0 < n / base < n) by (nonlinear_arith)
            requires
                n >= base,
                base >= 2,
        ;
        assert(n % base < base) by (nonlinear_arith)
            requires
                base >= 2,
        ;
        let upper = digits(n / base, base);
        law_digits_read_back(n / base, base);
        assert(text.drop_last() =~= upper);
        assert(text.last() == digit(n % base));
        assert(text[0] == upper[0]);
        assert((n / base) * base + n % base == n) by (nonlinear_arith)
            requires
                base >= 2,
        ;
        assert forall|i: int| 0 <= i < text.len() implies {
            let c = #[trigger] text[i];
            ('0' <= c <= '9' || 'a' <= c <= 'f') && 0 <= digit_value(c) < base
        } by {
            if i < upper.len() {
                assert(text[i] == upper[i]);
            }
        }
    }
}

/// A number is read back from its decimal text: a sign where it is negative, then its digits.
pub proof fn law_decimal_reads_back(n: int)
    ensures
        n >= 0 ==> number_read(decimal(n), 10) == n && decimal(n)[0] != '-',
        n < 0 ==> decimal(n)[0] == '-' && number_read(decimal(n).skip(1), 10) == -n,
{
    if n >= 0 {
        law_digits_read_back(n as nat, 10);
        lemma_digits_not_minus(n as nat);
    } else {
        law_digits_read_back((-n) as nat, 10);
        assert(decimal(n).skip(1) =~= digits((-n) as nat, 10));
    }
}

/// An address is read back from its text, in base sixteen behind `0x`.
pub proof fn law_hexadecimal_reads_back(n: nat)
    ensures
        hexadecimal(n).take(2) == seq!['0', 'x'],
        number_read(hexadecimal(n).skip(2), 16) == n,
        hexadecimal(n).len() > 2,
        hexadecimal(n)[2] == '0' ==> n == 0,
{
    law_digits_read_back(n, 16);
    assert(hexadecimal(n).take(2) =~= seq!['0', 'x']);
    assert(hexadecimal(n).skip(2) =~= digits(n, 16));
}

/// Joining two lists gives what joining each gives, with the separator between. One text alone is
/// left as it is, and no text gives nothing.
pub proof fn law_join_is_concatenation(
    front: Seq<Seq<char>>,
    back: Seq<Seq<char>>,
    separator: Seq<char>,
)
    requires
        front.len() > 0,
        back.len() > 0,
    ensures
        joined(front + back, separator) == joined(front, separator) + separator + joined(
            back,
            separator,
        ),
        front.len() == 1 ==> joined(front, separator) == front[0],
        joined(Seq::empty(), separator).len() == 0,
    decreases back.len(),
{
    let all = front + back;
    assert(all.last() == back.last());
    if back.len() == 1 {
        assert(all.drop_last() =~= front);
    } else {
        assert(all.drop_last() =~= front + back.drop_last());
        law_join_is_concatenation(front, back.drop_last(), separator);
    }
    assert(joined(all, separator) =~= joined(front, separator) + separator + joined(
        back,
        separator,
    ));
}

proof fn lemma_component_start(dir: Seq<char>, name: Seq<char>)
    requires
        dir.len() == 0 || dir.last() == '/',
        !name.contains('/'),
    ensures
        last_component_start(dir + name) == dir.len(),
    decreases name.len(),
{
    let path = dir + name;
    if name.len() == 0 {
        assert(path =~= dir);
    } else {
        let shorter = name.drop_last();
        assert(path.drop_last() =~= dir + shorter);
        assert(name[name.len() - 1] != '/');
        assert(path.last() == name.last());
        assert forall|i: int| 0 <= i < shorter.len() implies shorter[i] != '/' by {
            assert(name[i] != '/');
        }
        lemma_component_start(dir, shorter);
    }
}

/// A path that ends in a proper name, alone or behind a slash, has that name, whatever directory
/// it is in.
pub proof fn law_file_name_is_last_component(dir: Seq<char>, name: Seq<char>)
    requires
        name.len() > 0,
        !name.contains('/'),
        name != seq!['.'],
        name != seq!['.', '.'],
    ensures
        file_name(name) == Some(name),
        file_name(dir.push('/') + name) == Some(name),
{
    lemma_component_start(Seq::empty(), name);
    assert(Seq::<char>::empty() + name =~= name);
    assert(name.skip(0) =~= name);
    let path = dir.push('/') + name;
    lemma_component_start(dir.push('/'), name);
    assert(path.skip((dir.len() + 1) as int) =~= name);
}

/// A slash or a `.` at the end of a path does not change its name.
pub proof fn law_file_name_skips_empty_components(path: Seq<char>)
    ensures
        file_name(path.push('/')) == file_name(path),
        file_name(path + seq!['/', '.']) == file_name(path),
{
    let slash = path.push('/');
    lemma_component_start(slash, Seq::empty());
    assert(slash + Seq::<char>::empty() =~= slash);
    assert(slash.skip(slash.len() as int) =~= Seq::empty());
    assert(slash.take(path.len() as int) =~= path);
    let dot = path + seq!['/', '.'];
    assert(dot =~= slash + seq!['.']);
    lemma_component_start(slash, seq!['.']);
    assert(dot.skip(slash.len() as int) =~= seq!['.']);
    assert(dot.take(path.len() as int) =~= path);
}

/// A path that is empty or ends in `..` has no name, nor has `.` alone.
pub proof fn law_some_paths_have_no_name(dir: Seq<char>)
    ensures
        file_name(Seq::empty()) is None,
        file_name(seq!['.']) is None,
        file_name(seq!['.', '.']) is None,
        file_name(dir + seq!['/', '.', '.']) is None,
{
    let one = seq!['.'];
    let two = seq!['.', '.'];
    assert(one.len() != two.len());
    lemma_component_start(Seq::empty(), Seq::empty());
    assert(Seq::<char>::empty() + Seq::<char>::empty() =~= Seq::<char>::empty());
    assert(Seq::<char>::empty().skip(0) =~= Seq::empty());
    lemma_component_start(Seq::empty(), one);
    assert(Seq::<char>::empty() + one =~= one);
    assert(one.skip(0) =~= one);
    lemma_component_start(Seq::empty(), two);
    assert(Seq::<char>::empty() + two =~= two);
    assert(two.skip(0) =~= two);
    let path = dir + seq!['/', '.', '.'];
    assert(path =~= dir.push('/') + two);
    lemma_component_start(dir.push('/'), two);
    assert(path.skip((dir.len() + 1) as int) =~= two);
}

/// Statements about texts are statements about all their characters, and about all texts of a
/// list in order.
pub proof fn law_texts_are_seen_whole(text: Option<String>, texts: Seq<String>, i: int)
    requires
        0 <= i < texts.len(),
    ensures
        text is Some <==> text_view(text) is Some,
        text is Some ==> text_view(text)->0 == text->0@,
        texts_view(texts).len() == texts.len(),
        texts_view(texts)[i] == texts[i]@,
{
}

} // verus!
