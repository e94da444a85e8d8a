//! A guessing game: a secret number between 1 and 100 is drawn, and every
//! line that the player types is read as a guess and judged against it.
use vstd::prelude::*;
use rand::Rng;

verus! {

/// How a guess compares with the secret number.
#[derive(Clone, Copy, Debug, PartialEq, Eq, Structural)]
pub enum Hint {
    TooSmall,
    TooBig,
    Correct,
}

/// The hint on `guess` when the secret number is `secret`.
pub open spec fn spec_judge(guess: u32, secret: u32) -> Hint {
    if guess < secret {
        Hint::TooSmall
    } else if guess > secret {
        Hint::TooBig
    } else {
        Hint::Correct
    }
}

/// Judges `guess` against `secret`.
pub fn judge(guess: u32, secret: u32) -> (hint: Hint)
    ensures
        hint == spec_judge(guess, secret),
{
    if guess < secret {
        Hint::TooSmall
    } else if guess > secret {
        Hint::TooBig
    } else {
        Hint::Correct
    }
}

/// Whether `c` is white space: one of the characters with the Unicode
/// property `White_Space`.
pub open spec fn spec_is_whitespace(c: char) -> bool {
    let u = c as u32;
    ||| 0x09 <= u <= 0x0D
    ||| u == 0x20
    ||| u == 0x85
    ||| u == 0xA0
    ||| u == 0x1680
    ||| 0x2000 <= u <= 0x200A
    ||| u == 0x2028
    ||| u == 0x2029
    ||| u == 0x202F
    ||| u == 0x205F
    ||| u == 0x3000
}

/// Whether `c` is white space.
pub fn is_whitespace(c: char) -> (b: bool)
    ensures
        b == spec_is_whitespace(c),
{
    let u: u32 = c as u32;
    (0x09 <= u && u <= 0x0D) || u == 0x20 || u == 0x85 || u == 0xA0 || u == 0x1680 || (0x2000
        <= u && u <= 0x200A) || u == 0x2028 || u == 0x2029 || u == 0x202F || u == 0x205F || u
        == 0x3000
}

/// The position of the first character at or after `from` that is not white
/// space, or the length of `text` where there is none.
pub open spec fn trim_start(text: Seq<char>, from: int) -> int
    decreases text.len() - from,
{
    if from < 0 || from >= text.len() || !spec_is_whitespace(text[from]) {
        from
    } else {
        trim_start(text, from + 1)
    }
}

/// The position just behind the last character before `to` that is not
/// white space, or `start` where there is none behind `start`.
pub open spec fn trim_end(text: Seq<char>, start: int, to: int) -> int
    decreases to - start,
{
    if to <= start || to > text.len() || !spec_is_whitespace(text[to - 1]) {
        to
    } else {
        trim_end(text, start, to - 1)
    }
}

/// `text` without the white space at its two ends.
pub open spec fn spec_trim(text: Seq<char>) -> Seq<char> {
    let start = trim_start(text, 0);
    let end = trim_end(text, start, text.len() as int);
    text.subrange(start, end)
}

/// Whether `c` is one of the ten ASCII digits.
pub open spec fn is_digit(c: char) -> bool {
    '0' as u32 <= c as u32 <= '9' as u32
}

/// Whether `digits` holds ASCII digits and nothing else.
pub open spec fn all_digits(digits: Seq<char>) -> bool {
    forall|i: int| 0 <= i < digits.len() ==> is_digit(#[trigger] digits[i])
}

/// The number that `digits` writes in base ten.
pub open spec fn decimal(digits: Seq<char>) -> int
    decreases digits.len(),
{
    if digits.len() == 0 {
        0
    } else {
        decimal(digits.drop_last()) * 10 + (digits.last() as u32 - '0' as u32)
    }
}

/// The number that `digits` writes, where these are digits, at least one,
/// and the number has 32 bits.
pub open spec fn spec_parse_digits(digits: Seq<char>) -> Option<u32> {
    if digits.len() == 0 || !all_digits(digits) || decimal(digits) > u32::MAX {
        None
    } else {
        Some(decimal(digits) as u32)
    }
}

/// The number that `text` stands for: an optional plus sign and then at
/// least one digit, and only digits, that write a number of 32 bits.
/// Anything else stands for no number.
pub open spec fn spec_parse_u32(text: Seq<char>) -> Option<u32> {
    if text.len() > 0 && text[0] == '+' {
        spec_parse_digits(text.drop_first())
    } else {
        spec_parse_digits(text)
    }
}

/// The guess that the line `line` makes: the number it stands for once the
/// white space at its ends is gone.
pub open spec fn spec_parse_guess(line: Seq<char>) -> Option<u32> {
    spec_parse_u32(spec_trim(line))
}

/// A number written in digits is at least the number that its first digits
/// write, and is never negative.
pub proof fn lemma_decimal_grows(digits: Seq<char>, n: int)
    requires
        all_digits(digits),
        0 <= n <= digits.len(),
    ensures
        0 <= decimal(digits.take(n)) <= decimal(digits),
    decreases digits.len(),
{
    if n == digits.len() {
        assert(digits.take(n) =~= digits);
        if digits.len() > 0 {
            assert(all_digits(digits.drop_last())) by {
                assert forall|i: int| 0 <= i < digits.drop_last().len() implies is_digit(
                    #[trigger] digits.drop_last()[i],
                ) by {
                    assert(digits.drop_last()[i] == digits[i]);
                }
            }
            lemma_decimal_grows(digits.drop_last(), n - 1);
            assert(digits.drop_last().take(n - 1) =~= digits.drop_last());
            assert(is_digit(digits[digits.len() - 1]));
        }
    } else {
        assert(all_digits(digits.drop_last())) by {
            assert forall|i: int| 0 <= i < digits.drop_last().len() implies is_digit(
                #[trigger] digits.drop_last()[i],
            ) by {
                assert(digits.drop_last()[i] == digits[i]);
            }
        }
        lemma_decimal_grows(digits.drop_last(), n);
        lemma_decimal_grows(digits.drop_last(), digits.len() - 1);
        assert(digits.drop_last().take(n) =~= digits.take(n));
        assert(digits.drop_last().take(digits.len() - 1) =~= digits.drop_last());
        assert(is_digit(digits[digits.len() - 1]));
    }
}

/// Reads `line` as a guess.
pub fn parse_guess(line: &str) -> (guess: Option<u32>)
    ensures
        guess == spec_parse_guess(line@),
{
    let len = line.unicode_len();
    let mut start: usize = 0;
    while start < len && is_whitespace(line.get_char(start))
        invariant
            start <= len,
            len == line@.len(),
            trim_start(line@, 0) == trim_start(line@, start as int),
        decreases len - start,
    {
        start += 1;
    }
    let mut end: usize = len;
    while end > start && is_whitespace(line.get_char(end - 1))
        invariant
            start <= end <= len,
            len == line@.len(),
            trim_end(line@, start as int, len as int) == trim_end(line@, start as int, end as int),
        decreases end,
    {
        end -= 1;
    }
    let ghost text = line@.subrange(start as int, end as int);
    assert(text == spec_trim(line@));
    let mut first: usize = start;
    if first < end && line.get_char(first) == '+' {
        first += 1;
    }
    let ghost digits = line@.subrange(first as int, end as int);
    proof {
        if text.len() > 0 && text[0] == '+' {
            assert(digits =~= text.drop_first());
        } else {
            assert(digits =~= text);
        }
    }
    assert(spec_parse_guess(line@) == spec_parse_digits(digits));
    if first == end {
        return None;
    }
    let mut value: u64 = 0;
    let mut i: usize = first;
    while i < end
        invariant
            first <= i <= end <= len,
            len == line@.len(),
            digits == line@.subrange(first as int, end as int),
            spec_parse_guess(line@) == spec_parse_digits(digits),
            all_digits(digits.take(i - first)),
            value == decimal(digits.take(i - first)),
            value <= u32::MAX,
        decreases end - i,
    {
        let c = line.get_char(i);
        let u: u32 = c as u32;
        proof {
            assert(digits[i - first] == c);
            assert(digits.take(i - first + 1).drop_last() =~= digits.take(i - first));
            assert(digits.take(i - first + 1).last() == c);
        }
        if u < '0' as u32 || u > '9' as u32 {
            assert(!is_digit(digits[i - first]));
            return None;
        }
        value = value * 10 + (u - '0' as u32) as u64;
        proof {
            assert forall|j: int| 0 <= j < i - first + 1 implies is_digit(
                #[trigger] digits.take(i - first + 1)[j],
            ) by {
                if j < i - first {
                    assert(digits.take(i - first)[j] == digits.take(i - first + 1)[j]);
                }
            }
        }
        if value > u32::MAX as u64 {
            proof {
                if all_digits(digits) {
                    lemma_decimal_grows(digits, i - first + 1);
                }
            }
            return None;
        }
        i += 1;
    }
    proof {
        assert(digits.take(i - first) =~= digits);
    }
    Some(value as u32)
}

/// What the game answers to a line.
#[derive(Clone, Copy, Debug, PartialEq, Eq, Structural)]
pub enum Response {
    /// The line is no number: it is passed over and the player asked again.
    NotANumber,
    /// The line is this guess, with its hint.
    Judged(u32, Hint),
}

/// The answer to the line `line` when the secret number is `secret`.
pub open spec fn spec_respond(secret: u32, line: Seq<char>) -> Response {
    match spec_parse_guess(line) {
        None => Response::NotANumber,
        Some(guess) => Response::Judged(guess, spec_judge(guess, secret)),
    }
}

/// Draws a number from `low` to `high`, both included, with
/// `rand::Rng::gen_range` on the generator of the thread, `rand::thread_rng`.
/// Which number comes is left to chance: the contract claims only that it
/// lies in the range, as the sampling of an inclusive range of integers
/// does for every draw. The range must not be empty, or the call panics.
/// The generator is seeded from the operating system when a thread first
/// uses it, and the call panics if that source fails, which no argument
/// can prevent. Nothing of this is proved here.
#[verifier::external_body]
fn random_in_range(low: u32, high: u32) -> (n: u32)
    requires
        low <= high,
    ensures
        low <= n <= high,
{
    rand::thread_rng().gen_range(low..=high)
}

/// A game with its secret number.
pub struct Game {
    secret: u32,
}

impl View for Game {
    type V = u32;

    closed spec fn view(&self) -> u32 {
        self.secret
    }
}

impl Game {
    /// Whether `secret` is a number that a new game may draw.
    pub open spec fn may_be_drawn(secret: u32) -> bool {
        1 <= secret <= 100
    }

    /// A new game, with a secret number drawn at random between 1 and 100.
    pub fn start() -> (game: Game)
        ensures
            Game::may_be_drawn(game@),
    {
        Game::with_secret(random_in_range(1, 100))
    }

    /// The game whose secret number is `secret`.
    pub fn with_secret(secret: u32) -> (game: Game)
        ensures
            game@ == secret,
    {
        Game { secret }
    }

    /// Answers the line `line`: passes it over if it is no number, and
    /// judges it against the secret number if it is one.
    pub fn respond(&self, line: &str) -> (response: Response)
        ensures
            response == spec_respond(self@, line@),
    {
        match parse_guess(line) {
            None => Response::NotANumber,
            Some(guess) => Response::Judged(guess, judge(guess, self.secret)),
        }
    }
}

/// Whether `response` ends the game: whether it judges a guess as correct.
pub fn is_over(response: Response) -> (over: bool)
    ensures
        over == (response matches Response::Judged(_, Hint::Correct)),
{
    match response {
        Response::Judged(_, Hint::Correct) => true,
        _ => false,
    }
}

/// A guess is correct exactly when it is the secret number, and it is too
/// small exactly when the secret number would be too big a guess for it.
pub proof fn lemma_hints_mirror(guess: u32, secret: u32)
    ensures
        spec_judge(guess, secret) == Hint::Correct <==> guess == secret,
        spec_judge(guess, secret) == Hint::TooSmall <==> spec_judge(secret, guess)
            == Hint::TooBig,
{
}

/// The hints lead to the secret number: whoever halves the range that
/// the hints leave keeps the secret number inside it.
pub proof fn lemma_hint_narrows(low: u32, high: u32, guess: u32, secret: u32)
    requires
        low <= secret <= high,
        low <= guess <= high,
    ensures
        spec_judge(guess, secret) == Hint::TooSmall ==> guess + 1 <= secret <= high,
        spec_judge(guess, secret) == Hint::TooBig ==> low <= secret <= guess - 1,
        spec_judge(guess, secret) == Hint::Correct ==> secret == guess,
{
}

} // verus!
