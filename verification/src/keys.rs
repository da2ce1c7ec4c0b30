//! The key symbol table: the symbolic name of each hardware key code.
//!
//! The table is total: unmapped and out-of-range codes give the sentinel
//! "<UK>". Codes 0 through 111 follow the common PC keyboard scancode
//! assignment.

use vstd::prelude::*;

verus! {

/// The symbolic name of key code `code`.
pub open spec fn key_name_spec(code: u16) -> Seq<char> {
    if code == 0 {
        "<UK>"@
    } else if code == 1 {
        "<ESC>"@
    } else if code == 2 {
        "1"@
    } else if code == 3 {
        "2"@
    } else if code == 4 {
        "3"@
    } else if code == 5 {
        "4"@
    } else if code == 6 {
        "5"@
    } else if code == 7 {
        "6"@
    } else if code == 8 {
        "7"@
    } else if code == 9 {
        "8"@
    } else if code == 10 {
        "9"@
    } else if code == 11 {
        "0"@
    } else if code == 12 {
        "-"@
    } else if code == 13 {
        "="@
    } else if code == 14 {
        "<Backspace>"@
    } else if code == 15 {
        "<Tab>"@
    } else if code == 16 {
        "q"@
    } else if code == 17 {
        "w"@
    } else if code == 18 {
        "e"@
    } else if code == 19 {
        "r"@
    } else if code == 20 {
        "t"@
    } else if code == 21 {
        "y"@
    } else if code == 22 {
        "u"@
    } else if code == 23 {
        "i"@
    } else if code == 24 {
        "o"@
    } else if code == 25 {
        "p"@
    } else if code == 26 {
        "["@
    } else if code == 27 {
        "]"@
    } else if code == 28 {
        "<Enter>"@
    } else if code == 29 {
        "<LCtrl>"@
    } else if code == 30 {
        "a"@
    } else if code == 31 {
        "s"@
    } else if code == 32 {
        "d"@
    } else if code == 33 {
        "f"@
    } else if code == 34 {
        "g"@
    } else if code == 35 {
        "h"@
    } else if code == 36 {
        "j"@
    } else if code == 37 {
        "k"@
    } else if code == 38 {
        "l"@
    } else if code == 39 {
        ";"@
    } else if code == 40 {
        "'"@
    } else if code == 41 {
        "`"@
    } else if code == 42 {
        "<LShift>"@
    } else if code == 43 {
        "\\"@
    } else if code == 44 {
        "z"@
    } else if code == 45 {
        "x"@
    } else if code == 46 {
        "c"@
    } else if code == 47 {
        "v"@
    } else if code == 48 {
        "b"@
    } else if code == 49 {
        "n"@
    } else if code == 50 {
        "m"@
    } else if code == 51 {
        ","@
    } else if code == 52 {
        "."@
    } else if code == 53 {
        "/"@
    } else if code == 54 {
        "<RShift>"@
    } else if code == 55 {
        "<KP*>"@
    } else if code == 56 {
        "<LAlt>"@
    } else if code == 57 {
        " "@
    } else if code == 58 {
        "<CapsLock>"@
    } else if code == 59 {
        "<F1>"@
    } else if code == 60 {
        "<F2>"@
    } else if code == 61 {
        "<F3>"@
    } else if code == 62 {
        "<F4>"@
    } else if code == 63 {
        "<F5>"@
    } else if code == 64 {
        "<F6>"@
    } else if code == 65 {
        "<F7>"@
    } else if code == 66 {
        "<F8>"@
    } else if code == 67 {
        "<F9>"@
    } else if code == 68 {
        "<F10>"@
    } else if code == 69 {
        "<NumLock>"@
    } else if code == 70 {
        "<ScrollLock>"@
    } else if code == 71 {
        "<KP7>"@
    } else if code == 72 {
        "<KP8>"@
    } else if code == 73 {
        "<KP9>"@
    } else if code == 74 {
        "<KP->"@
    } else if code == 75 {
        "<KP4>"@
    } else if code == 76 {
        "<KP5>"@
    } else if code == 77 {
        "<KP6>"@
    } else if code == 78 {
        "<KP+>"@
    } else if code == 79 {
        "<KP1>"@
    } else if code == 80 {
        "<KP2>"@
    } else if code == 81 {
        "<KP3>"@
    } else if code == 82 {
        "<KP0>"@
    } else if code == 83 {
        "<KP.>"@
    } else if code == 84 {
        "<UK>"@
    } else if code == 85 {
        "<UK>"@
    } else if code == 86 {
        "<UK>"@
    } else if code == 87 {
        "<F11>"@
    } else if code == 88 {
        "<F12>"@
    } else if code == 89 {
        "<UK>"@
    } else if code == 90 {
        "<UK>"@
    } else if code == 91 {
        "<UK>"@
    } else if code == 92 {
        "<UK>"@
    } else if code == 93 {
        "<UK>"@
    } else if code == 94 {
        "<UK>"@
    } else if code == 95 {
        "<UK>"@
    } else if code == 96 {
        "<KPEnter>"@
    } else if code == 97 {
        "<RCtrl>"@
    } else if code == 98 {
        "<KP/>"@
    } else if code == 99 {
        "<SysRq>"@
    } else if code == 100 {
        "<RAlt>"@
    } else if code == 101 {
        "<UK>"@
    } else if code == 102 {
        "<Home>"@
    } else if code == 103 {
        "<Up>"@
    } else if code == 104 {
        "<PageUp>"@
    } else if code == 105 {
        "<Left>"@
    } else if code == 106 {
        "<Right>"@
    } else if code == 107 {
        "<End>"@
    } else if code == 108 {
        "<Down>"@
    } else if code == 109 {
        "<PageDown>"@
    } else if code == 110 {
        "<Insert>"@
    } else if code == 111 {
        "<Delete>"@
    } else {
        "<UK>"@
    }
}

/// The symbolic name of key code `code`; unmapped and out-of-range codes
/// give the sentinel "<UK>".
pub fn key_name(code: u16) -> (r: &'static str)
    ensures
        r@ == key_name_spec(code),
{
    match code {
        0 => "<UK>",
        1 => "<ESC>",
        2 => "1",
        3 => "2",
        4 => "3",
        5 => "4",
        6 => "5",
        7 => "6",
        8 => "7",
        9 => "8",
        10 => "9",
        11 => "0",
        12 => "-",
        13 => "=",
        14 => "<Backspace>",
        15 => "<Tab>",
        16 => "q",
        17 => "w",
        18 => "e",
        19 => "r",
        20 => "t",
        21 => "y",
        22 => "u",
        23 => "i",
        24 => "o",
        25 => "p",
        26 => "[",
        27 => "]",
        28 => "<Enter>",
        29 => "<LCtrl>",
        30 => "a",
        31 => "s",
        32 => "d",
        33 => "f",
        34 => "g",
        35 => "h",
        36 => "j",
        37 => "k",
        38 => "l",
        39 => ";",
        40 => "'",
        41 => "`",
        42 => "<LShift>",
        43 => "\\",
        44 => "z",
        45 => "x",
        46 => "c",
        47 => "v",
        48 => "b",
        49 => "n",
        50 => "m",
        51 => ",",
        52 => ".",
        53 => "/",
        54 => "<RShift>",
        55 => "<KP*>",
        56 => "<LAlt>",
        57 => " ",
        58 => "<CapsLock>",
        59 => "<F1>",
        60 => "<F2>",
        61 => "<F3>",
        62 => "<F4>",
        63 => "<F5>",
        64 => "<F6>",
        65 => "<F7>",
        66 => "<F8>",
        67 => "<F9>",
        68 => "<F10>",
        69 => "<NumLock>",
        70 => "<ScrollLock>",
        71 => "<KP7>",
        72 => "<KP8>",
        73 => "<KP9>",
        74 => "<KP->",
        75 => "<KP4>",
        76 => "<KP5>",
        77 => "<KP6>",
        78 => "<KP+>",
        79 => "<KP1>",
        80 => "<KP2>",
        81 => "<KP3>",
        82 => "<KP0>",
        83 => "<KP.>",
        84 => "<UK>",
        85 => "<UK>",
        86 => "<UK>",
        87 => "<F11>",
        88 => "<F12>",
        89 => "<UK>",
        90 => "<UK>",
        91 => "<UK>",
        92 => "<UK>",
        93 => "<UK>",
        94 => "<UK>",
        95 => "<UK>",
        96 => "<KPEnter>",
        97 => "<RCtrl>",
        98 => "<KP/>",
        99 => "<SysRq>",
        100 => "<RAlt>",
        101 => "<UK>",
        102 => "<Home>",
        103 => "<Up>",
        104 => "<PageUp>",
        105 => "<Left>",
        106 => "<Right>",
        107 => "<End>",
        108 => "<Down>",
        109 => "<PageDown>",
        110 => "<Insert>",
        111 => "<Delete>",
        _ => "<UK>",
    }
}

} // verus!
