use vstd::prelude::*;

use crate::text::str_eq;

verus! {

/// The number of keys, each with its own lighting slot.
pub const NUM_KEYS: usize = 144;

/// The lighting slot of the key called `name` (upper case, without a `KEY_`
/// prefix). Some slots have no name, and `FN` and `RIGHTMETA` share one.
pub open spec fn key_index_of(name: Seq<char>) -> Option<usize> {
    if name == "ESC"@ {
        Some(0)
    } else if name == "GRAVE"@ {
        Some(1)
    } else if name == "TAB"@ {
        Some(2)
    } else if name == "CAPSLOCK"@ {
        Some(3)
    } else if name == "LEFTSHIFT"@ {
        Some(4)
    } else if name == "LEFTCTRL"@ {
        Some(5)
    } else if name == "1"@ {
        Some(6)
    } else if name == "Q"@ {
        Some(7)
    } else if name == "A"@ {
        Some(8)
    } else if name == "LEFTMETA"@ {
        Some(10)
    } else if name == "F1"@ {
        Some(11)
    } else if name == "2"@ {
        Some(12)
    } else if name == "W"@ {
        Some(13)
    } else if name == "S"@ {
        Some(14)
    } else if name == "Z"@ {
        Some(15)
    } else if name == "LEFTALT"@ {
        Some(16)
    } else if name == "F2"@ {
        Some(17)
    } else if name == "3"@ {
        Some(18)
    } else if name == "E"@ {
        Some(19)
    } else if name == "D"@ {
        Some(20)
    } else if name == "X"@ {
        Some(21)
    } else if name == "F3"@ {
        Some(23)
    } else if name == "4"@ {
        Some(24)
    } else if name == "R"@ {
        Some(25)
    } else if name == "F"@ {
        Some(26)
    } else if name == "C"@ {
        Some(27)
    } else if name == "F4"@ {
        Some(28)
    } else if name == "5"@ {
        Some(29)
    } else if name == "T"@ {
        Some(30)
    } else if name == "G"@ {
        Some(31)
    } else if name == "V"@ {
        Some(32)
    } else if name == "6"@ {
        Some(33)
    } else if name == "Y"@ {
        Some(34)
    } else if name == "H"@ {
        Some(35)
    } else if name == "B"@ {
        Some(36)
    } else if name == "SPACE"@ {
        Some(37)
    } else if name == "F5"@ {
        Some(48)
    } else if name == "7"@ {
        Some(49)
    } else if name == "U"@ {
        Some(50)
    } else if name == "J"@ {
        Some(51)
    } else if name == "N"@ {
        Some(52)
    } else if name == "F6"@ {
        Some(53)
    } else if name == "8"@ {
        Some(54)
    } else if name == "I"@ {
        Some(55)
    } else if name == "K"@ {
        Some(56)
    } else if name == "M"@ {
        Some(57)
    } else if name == "F7"@ {
        Some(59)
    } else if name == "9"@ {
        Some(60)
    } else if name == "O"@ {
        Some(61)
    } else if name == "L"@ {
        Some(62)
    } else if name == "COMMA"@ {
        Some(63)
    } else if name == "F8"@ {
        Some(65)
    } else if name == "0"@ {
        Some(66)
    } else if name == "P"@ {
        Some(67)
    } else if name == "SEMICOLON"@ {
        Some(68)
    } else if name == "DOT"@ {
        Some(69)
    } else if name == "RIGHTALT"@ {
        Some(70)
    } else if name == "MINUS"@ {
        Some(72)
    } else if name == "LEFTBRACE"@ {
        Some(73)
    } else if name == "APOSTROPHE"@ {
        Some(74)
    } else if name == "SLASH"@ {
        Some(75)
    } else if name == "FN"@ {
        Some(76)
    } else if name == "RIGHTMETA"@ {
        Some(76)
    } else if name == "F9"@ {
        Some(78)
    } else if name == "EQUAL"@ {
        Some(79)
    } else if name == "RIGHTBRACE"@ {
        Some(80)
    } else if name == "BACKSLASH"@ {
        Some(81)
    } else if name == "RIGHTSHIFT"@ {
        Some(82)
    } else if name == "COMPOSE"@ {
        Some(83)
    } else if name == "F10"@ {
        Some(84)
    } else if name == "F11"@ {
        Some(85)
    } else if name == "F12"@ {
        Some(86)
    } else if name == "BACKSPACE"@ {
        Some(87)
    } else if name == "ENTER"@ {
        Some(88)
    } else if name == "RIGHTCTRL"@ {
        Some(89)
    } else if name == "SYSRQ"@ {
        Some(99)
    } else if name == "INSERT"@ {
        Some(100)
    } else if name == "DELETE"@ {
        Some(101)
    } else if name == "LEFT"@ {
        Some(102)
    } else if name == "SCROLLLOCK"@ {
        Some(103)
    } else if name == "HOME"@ {
        Some(104)
    } else if name == "END"@ {
        Some(105)
    } else if name == "UP"@ {
        Some(106)
    } else if name == "DOWN"@ {
        Some(107)
    } else if name == "PAUSE"@ {
        Some(108)
    } else if name == "PAGEUP"@ {
        Some(109)
    } else if name == "PAGEDOWN"@ {
        Some(110)
    } else if name == "RIGHT"@ {
        Some(111)
    } else if name == "NUMLOCK"@ {
        Some(113)
    } else if name == "KP7"@ {
        Some(114)
    } else if name == "KP4"@ {
        Some(115)
    } else if name == "KP1"@ {
        Some(116)
    } else if name == "KP0"@ {
        Some(117)
    } else if name == "KPSLASH"@ {
        Some(119)
    } else if name == "KP8"@ {
        Some(120)
    } else if name == "KP5"@ {
        Some(121)
    } else if name == "KP2"@ {
        Some(122)
    } else if name == "KPASTERISK"@ {
        Some(124)
    } else if name == "KP9"@ {
        Some(125)
    } else if name == "KP6"@ {
        Some(126)
    } else if name == "KP3"@ {
        Some(127)
    } else if name == "KPDOT"@ {
        Some(128)
    } else if name == "KPMINUS"@ {
        Some(129)
    } else if name == "KPPLUS"@ {
        Some(130)
    } else if name == "KPENTER"@ {
        Some(131)
    } else {
        None
    }
}

/// Looks up the lighting slot of the key called `key`.
pub fn parse_key_name(key: &str) -> (r: Option<usize>)
    ensures
        r == key_index_of(key@),
        r matches Some(i) ==> i < NUM_KEYS,
{
    if str_eq(key, "ESC") {
        Some(0)
    } else if str_eq(key, "GRAVE") {
        Some(1)
    } else if str_eq(key, "TAB") {
        Some(2)
    } else if str_eq(key, "CAPSLOCK") {
        Some(3)
    } else if str_eq(key, "LEFTSHIFT") {
        Some(4)
    } else if str_eq(key, "LEFTCTRL") {
        Some(5)
    } else if str_eq(key, "1") {
        Some(6)
    } else if str_eq(key, "Q") {
        Some(7)
    } else if str_eq(key, "A") {
        Some(8)
    } else if str_eq(key, "LEFTMETA") {
        Some(10)
    } else if str_eq(key, "F1") {
        Some(11)
    } else if str_eq(key, "2") {
        Some(12)
    } else if str_eq(key, "W") {
        Some(13)
    } else if str_eq(key, "S") {
        Some(14)
    } else if str_eq(key, "Z") {
        Some(15)
    } else if str_eq(key, "LEFTALT") {
        Some(16)
    } else if str_eq(key, "F2") {
        Some(17)
    } else if str_eq(key, "3") {
        Some(18)
    } else if str_eq(key, "E") {
        Some(19)
    } else if str_eq(key, "D") {
        Some(20)
    } else if str_eq(key, "X") {
        Some(21)
    } else if str_eq(key, "F3") {
        Some(23)
    } else if str_eq(key, "4") {
        Some(24)
    } else if str_eq(key, "R") {
        Some(25)
    } else if str_eq(key, "F") {
        Some(26)
    } else if str_eq(key, "C") {
        Some(27)
    } else if str_eq(key, "F4") {
        Some(28)
    } else if str_eq(key, "5") {
        Some(29)
    } else if str_eq(key, "T") {
        Some(30)
    } else if str_eq(key, "G") {
        Some(31)
    } else if str_eq(key, "V") {
        Some(32)
    } else if str_eq(key, "6") {
        Some(33)
    } else if str_eq(key, "Y") {
        Some(34)
    } else if str_eq(key, "H") {
        Some(35)
    } else if str_eq(key, "B") {
        Some(36)
    } else if str_eq(key, "SPACE") {
        Some(37)
    } else if str_eq(key, "F5") {
        Some(48)
    } else if str_eq(key, "7") {
        Some(49)
    } else if str_eq(key, "U") {
        Some(50)
    } else if str_eq(key, "J") {
        Some(51)
    } else if str_eq(key, "N") {
        Some(52)
    } else if str_eq(key, "F6") {
        Some(53)
    } else if str_eq(key, "8") {
        Some(54)
    } else if str_eq(key, "I") {
        Some(55)
    } else if str_eq(key, "K") {
        Some(56)
    } else if str_eq(key, "M") {
        Some(57)
    } else if str_eq(key, "F7") {
        Some(59)
    } else if str_eq(key, "9") {
        Some(60)
    } else if str_eq(key, "O") {
        Some(61)
    } else if str_eq(key, "L") {
        Some(62)
    } else if str_eq(key, "COMMA") {
        Some(63)
    } else if str_eq(key, "F8") {
        Some(65)
    } else if str_eq(key, "0") {
        Some(66)
    } else if str_eq(key, "P") {
        Some(67)
    } else if str_eq(key, "SEMICOLON") {
        Some(68)
    } else if str_eq(key, "DOT") {
        Some(69)
    } else if str_eq(key, "RIGHTALT") {
        Some(70)
    } else if str_eq(key, "MINUS") {
        Some(72)
    } else if str_eq(key, "LEFTBRACE") {
        Some(73)
    } else if str_eq(key, "APOSTROPHE") {
        Some(74)
    } else if str_eq(key, "SLASH") {
        Some(75)
    } else if str_eq(key, "FN") {
        Some(76)
    } else if str_eq(key, "RIGHTMETA") {
        Some(76)
    } else if str_eq(key, "F9") {
        Some(78)
    } else if str_eq(key, "EQUAL") {
        Some(79)
    } else if str_eq(key, "RIGHTBRACE") {
        Some(80)
    } else if str_eq(key, "BACKSLASH") {
        Some(81)
    } else if str_eq(key, "RIGHTSHIFT") {
        Some(82)
    } else if str_eq(key, "COMPOSE") {
        Some(83)
    } else if str_eq(key, "F10") {
        Some(84)
    } else if str_eq(key, "F11") {
        Some(85)
    } else if str_eq(key, "F12") {
        Some(86)
    } else if str_eq(key, "BACKSPACE") {
        Some(87)
    } else if str_eq(key, "ENTER") {
        Some(88)
    } else if str_eq(key, "RIGHTCTRL") {
        Some(89)
    } else if str_eq(key, "SYSRQ") {
        Some(99)
    } else if str_eq(key, "INSERT") {
        Some(100)
    } else if str_eq(key, "DELETE") {
        Some(101)
    } else if str_eq(key, "LEFT") {
        Some(102)
    } else if str_eq(key, "SCROLLLOCK") {
        Some(103)
    } else if str_eq(key, "HOME") {
        Some(104)
    } else if str_eq(key, "END") {
        Some(105)
    } else if str_eq(key, "UP") {
        Some(106)
    } else if str_eq(key, "DOWN") {
        Some(107)
    } else if str_eq(key, "PAUSE") {
        Some(108)
    } else if str_eq(key, "PAGEUP") {
        Some(109)
    } else if str_eq(key, "PAGEDOWN") {
        Some(110)
    } else if str_eq(key, "RIGHT") {
        Some(111)
    } else if str_eq(key, "NUMLOCK") {
        Some(113)
    } else if str_eq(key, "KP7") {
        Some(114)
    } else if str_eq(key, "KP4") {
        Some(115)
    } else if str_eq(key, "KP1") {
        Some(116)
    } else if str_eq(key, "KP0") {
        Some(117)
    } else if str_eq(key, "KPSLASH") {
        Some(119)
    } else if str_eq(key, "KP8") {
        Some(120)
    } else if str_eq(key, "KP5") {
        Some(121)
    } else if str_eq(key, "KP2") {
        Some(122)
    } else if str_eq(key, "KPASTERISK") {
        Some(124)
    } else if str_eq(key, "KP9") {
        Some(125)
    } else if str_eq(key, "KP6") {
        Some(126)
    } else if str_eq(key, "KP3") {
        Some(127)
    } else if str_eq(key, "KPDOT") {
        Some(128)
    } else if str_eq(key, "KPMINUS") {
        Some(129)
    } else if str_eq(key, "KPPLUS") {
        Some(130)
    } else if str_eq(key, "KPENTER") {
        Some(131)
    } else {
        None
    }
}

} // verus!
