//! The escape sequences that drive the terminal. Each function appends one
//! sequence to the text that is on its way to the terminal.

use crate::style::{decimal, digit};
use vstd::prelude::*;
use vstd::string::StringExecFns;

verus! {

/// The control sequence with the numeric parameter `n` and the final character `end`.
pub open spec fn csi(n: nat, end: char) -> Seq<char> {
    seq!['\x1b', '['] + decimal(n) + seq![end]
}

/// The sequence that moves the cursor to column `x`, row `y`, both counted from one.
pub open spec fn cursor_to(x: nat, y: nat) -> Seq<char> {
    seq!['\x1b', '['] + decimal(y) + seq![';'] + decimal(x) + seq!['H']
}

/// Appends `n` in decimal.
pub fn push_decimal(w: &mut String, n: u16)
    ensures
        final(w)@ == old(w)@ + decimal(n as nat),
    decreases n,
{
    if n >= 10 {
        push_decimal(w, n / 10);
    }
    let d = n % 10;
    let ch = if d == 0 {
        '0'
    } else if d == 1 {
        '1'
    } else if d == 2 {
        '2'
    } else if d == 3 {
        '3'
    } else if d == 4 {
        '4'
    } else if d == 5 {
        '5'
    } else if d == 6 {
        '6'
    } else if d == 7 {
        '7'
    } else if d == 8 {
        '8'
    } else {
        '9'
    };
    assert(ch == digit(d as nat));
    w.push(ch);
    assert(w@ =~= old(w)@ + decimal(n as nat));
}

/// Shows the cursor.
pub fn show_cursor(w: &mut String)
    ensures
        final(w)@ == old(w)@ + "\x1b[?25h"@,
{
    w.append("\x1b[?25h");
}

/// Hides the cursor.
pub fn hide_cursor(w: &mut String)
    ensures
        final(w)@ == old(w)@ + "\x1b[?25l"@,
{
    w.append("\x1b[?25l");
}

/// Lets the cursor blink.
pub fn show_blinking(w: &mut String)
    ensures
        final(w)@ == old(w)@ + "\x1b[?12h"@,
{
    w.append("\x1b[?12h");
}

/// Stops the cursor's blinking.
pub fn hide_blinking(w: &mut String)
    ensures
        final(w)@ == old(w)@ + "\x1b[?12l"@,
{
    w.append("\x1b[?12l");
}

/// Enters the alternate screen.
pub fn show_alternate_screen(w: &mut String)
    ensures
        final(w)@ == old(w)@ + "\x1b[?1049h"@,
{
    w.append("\x1b[?1049h");
}

/// Leaves the alternate screen.
pub fn hide_alternate_screen(w: &mut String)
    ensures
        final(w)@ == old(w)@ + "\x1b[?1049l"@,
{
    w.append("\x1b[?1049l");
}

/// Resets all colours and attributes.
pub fn reset(w: &mut String)
    ensures
        final(w)@ == old(w)@ + "\x1b[0m"@,
{
    w.append("\x1b[0m");
}

/// Clears the screen from the cursor to the end.
pub fn clear_from_cursor(w: &mut String)
    ensures
        final(w)@ == old(w)@ + "\x1b[J"@,
{
    w.append("\x1b[J");
}

/// Clears the screen from its start to the cursor.
pub fn clear_from_cursor_to_start(w: &mut String)
    ensures
        final(w)@ == old(w)@ + "\x1b[1J"@,
{
    w.append("\x1b[1J");
}

/// Clears the whole screen.
pub fn clear(w: &mut String)
    ensures
        final(w)@ == old(w)@ + "\x1b[2J"@,
{
    w.append("\x1b[2J");
}

/// Clears the line from the cursor to its end.
pub fn clear_line_from_cursor(w: &mut String)
    ensures
        final(w)@ == old(w)@ + "\x1b[K"@,
{
    w.append("\x1b[K");
}

/// Clears the line from its start to the cursor.
pub fn clear_line_from_cursor_to_start(w: &mut String)
    ensures
        final(w)@ == old(w)@ + "\x1b[1K"@,
{
    w.append("\x1b[1K");
}

/// Clears the whole line.
pub fn clear_line(w: &mut String)
    ensures
        final(w)@ == old(w)@ + "\x1b[2K"@,
{
    w.append("\x1b[2K");
}

/// Moves the cursor to column `x`, row `y`, both counted from one.
pub fn move_to(w: &mut String, x: u16, y: u16)
    ensures
        final(w)@ == old(w)@ + cursor_to(x as nat, y as nat),
{
    w.push('\x1b');
    w.push('[');
    push_decimal(w, y);
    w.push(';');
    push_decimal(w, x);
    w.push('H');
    assert(w@ =~= old(w)@ + cursor_to(x as nat, y as nat));
}

/// Scrolls the screen up by `amount` lines.
pub fn shift_up(w: &mut String, amount: u16)
    ensures
        final(w)@ == old(w)@ + csi(amount as nat, 'S'),
{
    w.push('\x1b');
    w.push('[');
    push_decimal(w, amount);
    w.push('S');
    assert(w@ =~= old(w)@ + csi(amount as nat, 'S'));
}

/// Scrolls the screen down by `amount` lines.
pub fn shift_down(w: &mut String, amount: u16)
    ensures
        final(w)@ == old(w)@ + csi(amount as nat, 'T'),
{
    w.push('\x1b');
    w.push('[');
    push_decimal(w, amount);
    w.push('T');
    assert(w@ =~= old(w)@ + csi(amount as nat, 'T'));
}

/// What is sent when the program gives the terminal back: leave the alternate
/// screen, show the cursor, reset the style.
pub open spec fn shutdown_codes() -> Seq<char> {
    "\x1b[?1049l"@ + "\x1b[?25h"@ + "\x1b[0m"@
}

/// Gives the terminal back: leaves the alternate screen, shows the cursor and
/// resets the style.
pub fn uninit(w: &mut String)
    ensures
        final(w)@ == old(w)@ + shutdown_codes(),
{
    hide_alternate_screen(w);
    show_cursor(w);
    reset(w);
    assert(w@ =~= old(w)@ + shutdown_codes());
}

} // verus!
