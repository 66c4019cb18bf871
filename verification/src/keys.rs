use crate::text::{
    begins_with, chars_of, decimal, lemma_decimal_reads_back, parse_u16, push_decimal, read_u16,
    reads_as, unsigned_body,
};
use vstd::prelude::*;
use vstd::string::{StrSliceExecFns, StringExecFns};

verus! {

/// A logical game control, independent of the physical button bound to it.
#[derive(Debug, Clone, Copy, PartialEq, Eq, Hash, Structural)]
pub enum LogicalKey {
    Key1,
    Key2,
    Key3,
    Key4,
    Key5,
    Key6,
    Key7,
    E1,
    E2,
    E3,
    E4,
    Start,
    Select,
    Turntable,
    Other(u16),
}

impl LogicalKey {
    /// The key's display form.
    pub open spec fn display(self) -> Seq<char> {
        match self {
            LogicalKey::Key1 => "Key1"@,
            LogicalKey::Key2 => "Key2"@,
            LogicalKey::Key3 => "Key3"@,
            LogicalKey::Key4 => "Key4"@,
            LogicalKey::Key5 => "Key5"@,
            LogicalKey::Key6 => "Key6"@,
            LogicalKey::Key7 => "Key7"@,
            LogicalKey::E1 => "E1"@,
            LogicalKey::E2 => "E2"@,
            LogicalKey::E3 => "E3"@,
            LogicalKey::E4 => "E4"@,
            LogicalKey::Start => "Start"@,
            LogicalKey::Select => "Select"@,
            LogicalKey::Turntable => "Turntable"@,
            LogicalKey::Other(id) => "Other-"@ + decimal(id as nat),
        }
    }

    /// `s` begins with the mark of a numbered key.
    pub open spec fn is_numbered_form(s: Seq<char>) -> bool {
        s.len() >= "Other-"@.len() && s.subrange(0, "Other-"@.len() as int) == "Other-"@
    }

    /// What follows the mark of a numbered key.
    pub open spec fn number_part(s: Seq<char>) -> Seq<char> {
        s.subrange("Other-"@.len() as int, s.len() as int)
    }

    /// The key whose display form, or another accepted spelling, is `s`.
    pub open spec fn parse(s: Seq<char>) -> Option<LogicalKey> {
        if s == "Key1"@ {
            Some(LogicalKey::Key1)
        } else if s == "Key2"@ {
            Some(LogicalKey::Key2)
        } else if s == "Key3"@ {
            Some(LogicalKey::Key3)
        } else if s == "Key4"@ {
            Some(LogicalKey::Key4)
        } else if s == "Key5"@ {
            Some(LogicalKey::Key5)
        } else if s == "Key6"@ {
            Some(LogicalKey::Key6)
        } else if s == "Key7"@ {
            Some(LogicalKey::Key7)
        } else if s == "E1"@ {
            Some(LogicalKey::E1)
        } else if s == "E2"@ {
            Some(LogicalKey::E2)
        } else if s == "E3"@ {
            Some(LogicalKey::E3)
        } else if s == "E4"@ {
            Some(LogicalKey::E4)
        } else if s == "Start"@ {
            Some(LogicalKey::Start)
        } else if s == "Select"@ {
            Some(LogicalKey::Select)
        } else if s == "Turntable"@ {
            Some(LogicalKey::Turntable)
        } else if Self::is_numbered_form(s) {
            match parse_u16(Self::number_part(s)) {
                Some(id) => Some(LogicalKey::Other(id)),
                None => None,
            }
        } else {
            None
        }
    }

    /// What is reported of a text that names no key.
    pub open spec fn parse_error(s: Seq<char>) -> Seq<char> {
        if Self::is_numbered_form(s) {
            "Invalid Other ID: "@ + Self::number_part(s)
        } else {
            "Unknown LogicalKey: "@ + s
        }
    }

    /// The key's display form.
    pub fn to_string(&self) -> (s: String)
        ensures
            s@ == self.display(),
    {
        match self {
            LogicalKey::Key1 => "Key1".to_owned(),
            LogicalKey::Key2 => "Key2".to_owned(),
            LogicalKey::Key3 => "Key3".to_owned(),
            LogicalKey::Key4 => "Key4".to_owned(),
            LogicalKey::Key5 => "Key5".to_owned(),
            LogicalKey::Key6 => "Key6".to_owned(),
            LogicalKey::Key7 => "Key7".to_owned(),
            LogicalKey::E1 => "E1".to_owned(),
            LogicalKey::E2 => "E2".to_owned(),
            LogicalKey::E3 => "E3".to_owned(),
            LogicalKey::E4 => "E4".to_owned(),
            LogicalKey::Start => "Start".to_owned(),
            LogicalKey::Select => "Select".to_owned(),
            LogicalKey::Turntable => "Turntable".to_owned(),
            LogicalKey::Other(id) => {
                let mut s = "Other-".to_owned();
                push_decimal(&mut s, *id as u64);
                s
            },
        }
    }

    /// Reads a key from its display form. A numbered key's number may carry
    /// a `+` and leading zeros.
    pub fn from_str(s: &str) -> (r: Result<LogicalKey, String>)
        ensures
            match r {
                Ok(key) => Self::parse(s@) == Some(key),
                Err(message) => Self::parse(s@).is_none() && message@ == Self::parse_error(s@),
            },
    {
        let chars = chars_of(s);
        assert(chars@.subrange(0, chars@.len() as int) =~= s@);
        if reads_as(&chars, 0, "Key1") {
            Ok(LogicalKey::Key1)
        } else if reads_as(&chars, 0, "Key2") {
            Ok(LogicalKey::Key2)
        } else if reads_as(&chars, 0, "Key3") {
            Ok(LogicalKey::Key3)
        } else if reads_as(&chars, 0, "Key4") {
            Ok(LogicalKey::Key4)
        } else if reads_as(&chars, 0, "Key5") {
            Ok(LogicalKey::Key5)
        } else if reads_as(&chars, 0, "Key6") {
            Ok(LogicalKey::Key6)
        } else if reads_as(&chars, 0, "Key7") {
            Ok(LogicalKey::Key7)
        } else if reads_as(&chars, 0, "E1") {
            Ok(LogicalKey::E1)
        } else if reads_as(&chars, 0, "E2") {
            Ok(LogicalKey::E2)
        } else if reads_as(&chars, 0, "E3") {
            Ok(LogicalKey::E3)
        } else if reads_as(&chars, 0, "E4") {
            Ok(LogicalKey::E4)
        } else if reads_as(&chars, 0, "Start") {
            Ok(LogicalKey::Start)
        } else if reads_as(&chars, 0, "Select") {
            Ok(LogicalKey::Select)
        } else if reads_as(&chars, 0, "Turntable") {
            Ok(LogicalKey::Turntable)
        } else if begins_with(&chars, "Other-") {
            let mark = "Other-".unicode_len();
            match read_u16(&chars, mark) {
                Some(id) => Ok(LogicalKey::Other(id)),
                None => {
                    let rest = s.substring_char(mark, chars.len());
                    Err(String::from_str("Invalid Other ID: ").concat(rest))
                },
            }
        } else {
            Err(String::from_str("Unknown LogicalKey: ").concat(s))
        }
    }

    /// A key's display form reads back as that key, so no two keys share a
    /// display form.
    pub proof fn law_display_reads_back(self)
        ensures
            Self::parse(self.display()) == Some(self),
    {
        reveal_strlit("Key1");
        reveal_strlit("Key2");
        reveal_strlit("Key3");
        reveal_strlit("Key4");
        reveal_strlit("Key5");
        reveal_strlit("Key6");
        reveal_strlit("Key7");
        reveal_strlit("E1");
        reveal_strlit("E2");
        reveal_strlit("E3");
        reveal_strlit("E4");
        reveal_strlit("Start");
        reveal_strlit("Select");
        reveal_strlit("Turntable");
        reveal_strlit("Other-");
        assert("Key1"@[0] == 'K' && "Key1"@[3] == '1');
        assert("Key2"@[0] == 'K' && "Key2"@[3] == '2');
        assert("Key3"@[0] == 'K' && "Key3"@[3] == '3');
        assert("Key4"@[0] == 'K' && "Key4"@[3] == '4');
        assert("Key5"@[0] == 'K' && "Key5"@[3] == '5');
        assert("Key6"@[0] == 'K' && "Key6"@[3] == '6');
        assert("Key7"@[0] == 'K' && "Key7"@[3] == '7');
        assert("E1"@[0] == 'E' && "E1"@[1] == '1');
        assert("E2"@[0] == 'E' && "E2"@[1] == '2');
        assert("E3"@[0] == 'E' && "E3"@[1] == '3');
        assert("E4"@[0] == 'E' && "E4"@[1] == '4');
        assert("Start"@[0] == 'S' && "Start"@[1] == 't');
        assert("Select"@[0] == 'S' && "Select"@[1] == 'e');
        assert("Turntable"@[0] == 'T');
        assert("Other-"@[0] == 'O');
        match self {
            LogicalKey::Other(id) => {
                let s = self.display();
                let digits = decimal(id as nat);
                lemma_decimal_reads_back(id as nat);
                assert(s[0] == 'O');
                assert(s.subrange(0, 6) =~= "Other-"@);
                assert(Self::number_part(s) =~= digits);
                assert(unsigned_body(digits) == digits);
            },
            _ => {},
        }
    }
}

} // verus!
