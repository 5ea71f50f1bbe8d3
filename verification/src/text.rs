//! The words that the game shows, the names by which a drawing surface
//! knows fonts and colours, and the names and paths of the images.

use vstd::prelude::*;
use crate::render::{Color, Label, Sprite};

verus! {

/// The character of the decimal digit `d`.
pub open spec fn digit(d: nat) -> char {
    if d == 0 {
        '0'
    } else if d == 1 {
        '1'
    } else if d == 2 {
        '2'
    } else if d == 3 {
        '3'
    } else if d == 4 {
        '4'
    } else if d == 5 {
        '5'
    } else if d == 6 {
        '6'
    } else if d == 7 {
        '7'
    } else if d == 8 {
        '8'
    } else {
        '9'
    }
}

/// The decimal numeral of `n`, without leading zeros.
pub open spec fn decimal(n: nat) -> Seq<char>
    decreases n,
{
    if n < 10 {
        seq![digit(n)]
    } else {
        decimal(n / 10).push(digit(n % 10))
    }
}

/// The text of a label.
pub open spec fn label_text(label: Label) -> Seq<char> {
    match label {
        Label::Score(score) => "Score: "@ + decimal(score as nat),
        Label::Difficulty(percent) => "Difficulty: "@ + decimal(percent as nat) + "%"@,
        Label::Title => "Flappy Bird"@,
        Label::StartHint => "Press SPACE to Start"@,
        Label::Tagline => "Now with Progressive Difficulty!"@,
        Label::Paused => "PAUSED"@,
        Label::GameOver => "Game Over!"@,
        Label::FinalScore(score) => "Final Score: "@ + decimal(score as nat),
        Label::RestartHint => "Press SPACE to Restart"@,
    }
}

/// The name of the font of `size` pixels.
pub open spec fn font_text(size: nat) -> Seq<char> {
    decimal(size) + "px Arial"@
}

/// The name of a colour.
pub open spec fn color_text(color: Color) -> Seq<char> {
    match color {
        Color::Black => "black"@,
    }
}

/// The name under which an image is known.
pub open spec fn sprite_name(sprite: Sprite) -> Seq<char> {
    match sprite {
        Sprite::Background => "background"@,
        Sprite::Bird => "bird"@,
        Sprite::Pipe => "pipe"@,
    }
}

/// The path from which an image is loaded.
pub open spec fn sprite_path(sprite: Sprite) -> Seq<char> {
    match sprite {
        Sprite::Background => "assets/background.png"@,
        Sprite::Bird => "assets/bird.png"@,
        Sprite::Pipe => "assets/pipe.png"@,
    }
}

/// The digit `d` as a string.
fn digit_str(d: u32) -> (s: &'static str)
    requires
        d < 10,
    ensures
        s@ == seq![digit(d as nat)],
{
    proof {
        reveal_strlit("0");
        reveal_strlit("1");
        reveal_strlit("2");
        reveal_strlit("3");
        reveal_strlit("4");
        reveal_strlit("5");
        reveal_strlit("6");
        reveal_strlit("7");
        reveal_strlit("8");
        reveal_strlit("9");
    }
    match d {
        0 => "0",
        1 => "1",
        2 => "2",
        3 => "3",
        4 => "4",
        5 => "5",
        6 => "6",
        7 => "7",
        8 => "8",
        _ => "9",
    }
}

/// Writes `n` in decimal.
pub fn decimal_string(n: u32) -> (s: String)
    ensures
        s@ == decimal(n as nat),
    decreases n,
{
    if n < 10 {
        String::from_str(digit_str(n))
    } else {
        let mut s = decimal_string(n / 10);
        s.append(digit_str(n % 10));
        s
    }
}

impl Label {
    /// The text to show for this label.
    pub fn text(&self) -> (s: String)
        ensures
            s@ == label_text(*self),
    {
        match *self {
            Label::Score(score) => {
                let mut s = String::from_str("Score: ");
                s.append(decimal_string(score).as_str());
                s
            },
            Label::Difficulty(percent) => {
                let mut s = String::from_str("Difficulty: ");
                s.append(decimal_string(percent).as_str());
                s.append("%");
                s
            },
            Label::Title => String::from_str("Flappy Bird"),
            Label::StartHint => String::from_str("Press SPACE to Start"),
            Label::Tagline => String::from_str("Now with Progressive Difficulty!"),
            Label::Paused => String::from_str("PAUSED"),
            Label::GameOver => String::from_str("Game Over!"),
            Label::FinalScore(score) => {
                let mut s = String::from_str("Final Score: ");
                s.append(decimal_string(score).as_str());
                s
            },
            Label::RestartHint => String::from_str("Press SPACE to Restart"),
        }
    }
}

impl Sprite {
    /// The name under which this image is known.
    pub fn name(&self) -> (s: &'static str)
        ensures
            s@ == sprite_name(*self),
    {
        match *self {
            Sprite::Background => "background",
            Sprite::Bird => "bird",
            Sprite::Pipe => "pipe",
        }
    }

    /// The path from which this image is loaded.
    pub fn path(&self) -> (s: &'static str)
        ensures
            s@ == sprite_path(*self),
    {
        match *self {
            Sprite::Background => "assets/background.png",
            Sprite::Bird => "assets/bird.png",
            Sprite::Pipe => "assets/pipe.png",
        }
    }
}

impl Color {
    /// The name of this colour.
    pub fn name(&self) -> (s: &'static str)
        ensures
            s@ == color_text(*self),
    {
        match *self {
            Color::Black => "black",
        }
    }
}

/// The name of the font of `size` pixels.
pub fn font_name(size: u32) -> (s: String)
    ensures
        s@ == font_text(size as nat),
{
    let mut s = decimal_string(size);
    s.append("px Arial");
    s
}

} // verus!
