use core::fmt::Write;
use vstd::prelude::*;
use vstd::string::StringSliceAdditionalSpecFns;

verus! {

/// The console's name, shown at the top of the menu.
pub const CONSOLE_NAME: &'static str = "PicoPlay";

/// The question under the console's name.
pub const PROMPT: &'static str = "What would you like to play?";

/// The first menu entry.
pub const RETRO_HEROES_LABEL: &'static str = "Retro Heroes";

/// The second menu entry.
pub const OTHER_GAMES_LABEL: &'static str = "Other Games";

/// Shown when player 1 has won a battle.
pub const PLAYER1_WON_TEXT: &'static str = "Player 1 won the game!";

/// Shown when player 2 has won a battle.
pub const PLAYER2_WON_TEXT: &'static str = "Player 2 won the game!";

/// The menu labels are plain ASCII, so their length in bytes, which is what
/// `str::len` gives, is their number of characters.
pub proof fn lemma_label_lengths()
    ensures
        RETRO_HEROES_LABEL@.len() == 12,
        OTHER_GAMES_LABEL@.len() == 11,
        RETRO_HEROES_LABEL.spec_bytes().len() == 12,
        OTHER_GAMES_LABEL.spec_bytes().len() == 11,
{
    reveal_strlit("Retro Heroes");
    reveal_strlit("Other Games");
    assert(vstd::utf8::is_ascii_chars(RETRO_HEROES_LABEL@));
    assert(vstd::utf8::is_ascii_chars(OTHER_GAMES_LABEL@));
    vstd::utf8::is_ascii_chars_encode_utf8(RETRO_HEROES_LABEL@);
    vstd::utf8::is_ascii_chars_encode_utf8(OTHER_GAMES_LABEL@);
}

/// The decimal digit character for `d` (0 to 9).
pub open spec fn digit_char(d: int) -> char {
    ('0' as int + d) as char
}

/// The decimal digits of `n`, most significant first, without leading zeros.
pub open spec fn decimal_digits(n: nat) -> Seq<char>
    decreases n,
{
    if n < 10 {
        seq![digit_char(n as int)]
    } else {
        decimal_digits(n / 10).push(digit_char((n % 10) as int))
    }
}

/// The decimal notation of `v`, with a leading `-` when `v` is negative.
pub open spec fn decimal(v: int) -> Seq<char> {
    if v < 0 {
        seq!['-'] + decimal_digits((-v) as nat)
    } else {
        decimal_digits(v as nat)
    }
}

/// The status line that shows a player's health points.
pub open spec fn hp_text(hp: int) -> Seq<char> {
    seq!['H', 'P', ':', ' '] + decimal(hp)
}

/// Formats `HP: {hp}` into a `heapless::String<32>` with `core::fmt::Write`
/// and copies the text out. The `Write` impl of `heapless::String` appends
/// each piece with `push_str`, which fails only when the text would outgrow
/// the 32-byte capacity; "HP: " and any `i32` in decimal take at most 15
/// bytes, so the text is always complete. The contract claims that `i32`'s
/// `Display` writes the plain decimal notation, as std documents.
#[verifier::external_body]
pub(crate) fn format_hp(hp: i32) -> (text: String)
    ensures
        text@ == hp_text(hp as int),
{
    let mut line: heapless::String<32> = heapless::String::new();
    write!(line, "HP: {}", hp).unwrap();
    String::from(line.as_str())
}

} // verus!
