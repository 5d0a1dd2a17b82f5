//! Text assembled for messages.

use vstd::prelude::*;

verus! {

/// The decimal digit `d`, for `d` below 10.
pub open spec fn digit(d: nat) -> char {
    if d == 0 {
        '0'
    } else if d == 1 {
        '1'
    } else if d == 2 {
        '2'
    } else if d == 3 {
        '3'
    } else if d == 4 {
        '4'
    } else if d == 5 {
        '5'
    } else if d == 6 {
        '6'
    } else if d == 7 {
        '7'
    } else if d == 8 {
        '8'
    } else {
        '9'
    }
}

/// `n` written in decimal, most significant digit first and without leading zeros.
pub open spec fn decimal(n: nat) -> Seq<char>
    decreases n,
{
    if n < 10 {
        seq![digit(n)]
    } else {
        decimal(n / 10).push(digit(n % 10))
    }
}

fn digit_text(d: usize) -> (r: &'static str)
    requires
        d < 10,
    ensures
        r@ == seq![digit(d as nat)],
{
    proof {
        reveal_strlit("0");
        reveal_strlit("1");
        reveal_strlit("2");
        reveal_strlit("3");
        reveal_strlit("4");
        reveal_strlit("5");
        reveal_strlit("6");
        reveal_strlit("7");
        reveal_strlit("8");
        reveal_strlit("9");
    }
    match d {
        0 => "0",
        1 => "1",
        2 => "2",
        3 => "3",
        4 => "4",
        5 => "5",
        6 => "6",
        7 => "7",
        8 => "8",
        _ => "9",
    }
}

/// Writes `n` in decimal.
pub fn decimal_text(n: usize) -> (r: String)
    ensures
        r@ == decimal(n as nat),
    decreases n,
{
    if n < 10 {
        digit_text(n).to_owned()
    } else {
        let mut text = decimal_text(n / 10);
        text.append(digit_text(n % 10));
        text
    }
}

/// The number that a text of decimal digits stands for.
pub open spec fn number_of(digits: Seq<char>) -> int
    decreases digits.len(),
{
    if digits.len() == 0 {
        0
    } else {
        number_of(digits.drop_last()) * 10 + (digits.last() as int - '0' as int)
    }
}

/// A number is read back from its digits, all of which are decimal digits, and of which the first one
/// is not a zero unless the number is.
pub proof fn numbers_are_read_back(n: nat)
    ensures
        number_of(decimal(n)) == n,
        decimal(n).len() > 0,
        forall|i: int| 0 <= i < decimal(n).len() ==> '0' <= #[trigger] decimal(n)[i] <= '9',
        n > 0 ==> decimal(n)[0] != '0',
    decreases n,
{
    reveal_with_fuel(number_of, 2);
    if n < 10 {
        assert(decimal(n).drop_last() == Seq::<char>::empty());
        assert(decimal(n).last() == digit(n));
    } else {
        numbers_are_read_back(n / 10);
        assert(decimal(n).drop_last() == decimal(n / 10));
        assert(decimal(n).last() == digit(n % 10));
        assert forall|i: int| 0 <= i < decimal(n).len() implies '0' <= #[trigger] decimal(n)[i]
            <= '9' by {
            if i < decimal(n / 10).len() {
                assert(decimal(n)[i] == decimal(n / 10)[i]);
            }
        }
    }
}

/// The texts that strings hold.
pub open spec fn texts(strings: Seq<String>) -> Seq<Seq<char>> {
    strings.map_values(|string: String| string@)
}

/// What a cause begins with if it is one of several: its number, aligned to the right in five columns.
pub open spec fn numbering(n: nat) -> Seq<char> {
    (if n < 10 {
        "    "@
    } else if n < 100 {
        "   "@
    } else if n < 1000 {
        "  "@
    } else if n < 10000 {
        " "@
    } else {
        Seq::empty()
    }) + decimal(n) + ": "@
}

/// A text whose lines but the first begin with a margin.
pub open spec fn indented(text: Seq<char>, margin: Seq<char>) -> Seq<char>
    decreases text.len(),
{
    if text.len() == 0 {
        Seq::empty()
    } else {
        indented(text.drop_last(), margin) + (if text.last() == '\n' {
            "\n"@ + margin
        } else {
            seq![text.last()]
        })
    }
}

/// The lines that tell causes, each one caused by the next. Further lines of a cause begin below its
/// first character.
pub open spec fn cause_lines(causes: Seq<Seq<char>>, numbered: bool) -> Seq<char>
    decreases causes.len(),
{
    if causes.len() == 0 {
        Seq::empty()
    } else {
        cause_lines(causes.drop_last(), numbered) + "\n"@ + (if numbered {
            numbering((causes.len() - 1) as nat) + indented(causes.last(), "       "@)
        } else {
            "    "@ + indented(causes.last(), "    "@)
        })
    }
}

/// A message, and below it what caused it. Several causes are numbered.
pub open spec fn caused_by(message: Seq<char>, causes: Seq<Seq<char>>) -> Seq<char> {
    if causes.len() == 0 {
        message
    } else {
        message + "\n\nCaused by:"@ + cause_lines(causes, causes.len() > 1)
    }
}

fn numbering_text(n: usize) -> (r: String)
    ensures
        r@ == numbering(n as nat),
{
    let mut text = (if n < 10 {
        "    "
    } else if n < 100 {
        "   "
    } else if n < 1000 {
        "  "
    } else if n < 10000 {
        " "
    } else {
        ""
    }).to_owned();
    proof {
        reveal_strlit("");
    }
    text.append(decimal_text(n).as_str());
    text.append(": ");
    text
}

/// What a cause begins with has seven characters, of which the last two are a colon and a space: the
/// number ends in the fifth column. That is, for numbers of up to five digits.
pub proof fn numbers_are_aligned(n: nat)
    requires
        n < 100000,
    ensures
        numbering(n).len() == 7,
        numbering(n)[5] == ':',
        numbering(n)[6] == ' ',
        decimal(n).len() <= 5,
        numbering(n).subrange(5 - decimal(n).len(), 5) == decimal(n),
        forall|i: int| 0 <= i < 5 - decimal(n).len() ==> #[trigger] numbering(n)[i] == ' ',
{
    reveal_with_fuel(decimal, 6);
    reveal_strlit("    ");
    reveal_strlit("   ");
    reveal_strlit("  ");
    reveal_strlit(" ");
    reveal_strlit(": ");
    assert(numbering(n).subrange(5 - decimal(n).len(), 5) == decimal(n));
}

/// A text of one line stays as it is; each line break is followed by the margin, and nothing else
/// changes.
pub proof fn only_line_breaks_are_indented(text: Seq<char>, c: char, margin: Seq<char>)
    ensures
        indented(Seq::empty(), margin) == Seq::<char>::empty(),
        c != '\n' ==> indented(text.push(c), margin) == indented(text, margin).push(c),
        c == '\n' ==> indented(text.push(c), margin) == indented(text, margin).push('\n') + margin,
        !text.contains('\n') ==> indented(text, margin) == text,
{
    reveal_strlit("\n");
    assert(text.push(c).drop_last() == text);
    assert(text.push(c).last() == c);
    assert(indented(text, margin) + seq![c] == indented(text, margin).push(c));
    if c == '\n' {
        assert(indented(text, margin) + ("\n"@ + margin) == indented(text, margin).push('\n')
            + margin);
    }
    if !text.contains('\n') {
        indented_line(Seq::empty(), text, margin);
        assert(Seq::<char>::empty() + text == text);
        assert(indented(Seq::empty(), margin) + text == text);
    }
}

/// A message without a cause stays as it is. A single cause stands below it, indented; several causes
/// are numbered from 0 on, one below the other.
pub proof fn causes_stand_below_the_message(
    message: Seq<char>,
    first: Seq<char>,
    second: Seq<char>,
    causes: Seq<Seq<char>>,
    last: Seq<char>,
)
    ensures
        caused_by(message, Seq::empty()) == message,
        caused_by(message, seq![first]) == message + "\n\nCaused by:"@ + "\n"@ + "    "@ + indented(
            first,
            "    "@,
        ),
        caused_by(message, seq![first, second]) == message + "\n\nCaused by:"@ + "\n"@ + numbering(0)
            + indented(first, "       "@) + "\n"@ + numbering(1) + indented(second, "       "@),
        causes.len() >= 2 ==> caused_by(message, causes.push(last)) == caused_by(message, causes)
            + "\n"@ + numbering(causes.len()) + indented(last, "       "@),
{
    let head = message + "\n\nCaused by:"@;
    let none: Seq<Seq<char>> = Seq::empty();
    let one = seq![first];
    let two = seq![first, second];
    assert(one.drop_last() == none);
    assert(two.drop_last() == one);
    assert(cause_lines(none, true) == Seq::<char>::empty());
    assert(cause_lines(none, false) == Seq::<char>::empty());
    assert(cause_lines(one, true) == "\n"@ + (numbering(0) + indented(first, "       "@)));
    assert(cause_lines(two, true) == cause_lines(one, true) + "\n"@ + (numbering(1) + indented(
        second,
        "       "@,
    )));
    assert(caused_by(message, one) == head + "\n"@ + "    "@ + indented(first, "    "@));
    assert(caused_by(message, two) == head + "\n"@ + numbering(0) + indented(first, "       "@)
        + "\n"@ + numbering(1) + indented(second, "       "@));
    assert(causes.push(last).drop_last() == causes);
    if causes.len() >= 2 {
        assert(cause_lines(causes.push(last), true) == cause_lines(causes, true) + "\n"@ + (
        numbering(causes.len()) + indented(last, "       "@)));
        assert(caused_by(message, causes.push(last)) == caused_by(message, causes) + "\n"@
            + numbering(causes.len()) + indented(last, "       "@));
    }
}

proof fn indented_line(text: Seq<char>, line: Seq<char>, margin: Seq<char>)
    requires
        !line.contains('\n'),
    ensures
        indented(text + line, margin) == indented(text, margin) + line,
    decreases line.len(),
{
    if line.len() == 0 {
        assert(text + line == text);
    } else {
        let all = text + line;
        assert(line[line.len() - 1] != '\n');
        assert forall|c: char| line.drop_last().contains(c) implies line.contains(c) by {
            let i = choose|i: int| 0 <= i < line.drop_last().len() && line.drop_last()[i] == c;
            assert(line[i] == c);
        }
        indented_line(text, line.drop_last(), margin);
        assert(all.drop_last() == text + line.drop_last());
        assert(indented(text, margin) + line.drop_last() + seq![line.last()] == indented(
            text,
            margin,
        ) + line);
    }
}

/// Appends a text, whose lines but the first begin with a margin.
fn append_indented(to: &mut String, text: &str, margin: &str)
    ensures
        final(to)@ == old(to)@ + indented(text@, margin@),
{
    let ghost before = to@;
    let len: usize = text.unicode_len();
    let mut start: usize = 0;
    let mut at: usize = 0;
    for c in iter: text.chars()
        invariant
            len == text@.len(),
            iter.seq() == text@,
            at == iter.index(),
            start <= at <= len,
            !text@.subrange(start as int, at as int).contains('\n'),
            to@ == before + indented(text@.take(start as int), margin@),
    {
        assert(c == text@[at as int]);
        if c == '\n' {
            let line = text.substring_char(start, at);
            to.append(line);
            to.append("\n");
            to.append(margin);
            proof {
                indented_line(text@.take(start as int), line@, margin@);
                assert(text@.take(start as int) + line@ == text@.take(at as int));
                assert(text@.take(at + 1).drop_last() == text@.take(at as int));
            }
            start = at + 1;
        } else {
            assert(text@.subrange(start as int, at + 1) == text@.subrange(
                start as int,
                at as int,
            ).push(c));
            assert forall|i: int| start <= i < at implies text@[i] != '\n' by {
                assert(text@.subrange(start as int, at as int)[i - start] == text@[i]);
            }
        }
        at = at + 1;
    }
    let line = text.substring_char(start, len);
    to.append(line);
    proof {
        indented_line(text@.take(start as int), line@, margin@);
        assert(text@.take(start as int) + line@ == text@);
    }
}

/// Puts what caused it below a message.
pub fn with_causes(message: &str, causes: &[String]) -> (r: String)
    ensures
        r@ == caused_by(message@, texts(causes@)),
{
    let mut text = message.to_owned();
    if causes.len() > 0 {
        text.append("\n\nCaused by:");
    }
    let numbered = causes.len() > 1;
    let ghost head = text@;
    let ghost all = texts(causes@);
    let mut i: usize = 0;
    while i < causes.len()
        invariant
            i <= causes.len(),
            numbered == (causes.len() > 1),
            all == texts(causes@),
            text@ == head + cause_lines(all.take(i as int), numbered),
        decreases causes.len() - i,
    {
        assert(all.take(i + 1).drop_last() == all.take(i as int));
        text.append("\n");
        if numbered {
            text.append(numbering_text(i).as_str());
            append_indented(&mut text, causes[i].as_str(), "       ");
        } else {
            text.append("    ");
            append_indented(&mut text, causes[i].as_str(), "    ");
        }
        i = i + 1;
    }
    assert(all.take(i as int) == all);
    text
}

} // verus!
