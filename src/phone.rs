//! The desk phone's keys, and turning a stored phone number into key presses.
use crate::text::chars_of;
use vstd::prelude::*;

verus! {

pub enum PhoneOperation {
    EndCall,
    HoldCall,
    AcceptCall,
    RejectCall,
    Cancel,
}

pub enum SystemOperation {
    Reboot,
    Reset,
}

#[derive(Debug, PartialEq, Eq, Structural)]
pub enum PhoneKey {
    Speaker,
    Transfer,
    VolUp,
    VolDown,
    Mute,
    Hold,
    KeypadKey(KeypadKey),
    Line(PhoneLine),
    Conference,
    VoiceMail,
    Headset,
    DoNotDisturb,
    Send,
    SoftKey(SoftKey),
    MultiPurposeKey(MultiPurposeKey),
    Star,
    OnHook,
    OffHook,
    OkButton,
    Lock,
    Unlock,
    Up,
    Down,
    Left,
    Right,
}

#[derive(Debug, PartialEq, Eq, Structural)]
pub enum MultiPurposeKey {
    Key1,
    Key2,
    Key3,
    Key4,
    Key5,
    Key6,
    Key7,
    Key8,
    Key9,
    Key10,
    Key11,
    Key12,
    Key13,
    Key14,
    Key15,
    Key16,
    Key17,
    Key18,
    Key19,
    Key20,
    Key21,
    Key22,
    Key23,
    Key24,
}

#[derive(Debug, PartialEq, Eq, Structural)]
pub enum SoftKey {
    Key1,
    Key2,
    Key3,
    Key4,
    Left,
    Right,
}

/// One of the phone's lines.
#[derive(Debug, Clone, Copy, PartialEq, Eq, Structural)]
pub enum PhoneLine {
    Line1,
    Line2,
    Line3,
    Line4,
    Line5,
    Line6,
    Line7,
    Line8,
}

#[derive(Debug, Clone, Copy, PartialEq, Eq, Structural)]
pub enum KeypadKey {
    Zero,
    One,
    Two,
    Three,
    Four,
    Five,
    Six,
    Seven,
    Eight,
    Nine,
    Star,
    Hash,
}

/// The keypad key that dials `c`, if any: a digit, `*` or `#`.
pub open spec fn keypad_key_for(c: char) -> Option<KeypadKey> {
    if c == '0' {
        Some(KeypadKey::Zero)
    } else if c == '1' {
        Some(KeypadKey::One)
    } else if c == '2' {
        Some(KeypadKey::Two)
    } else if c == '3' {
        Some(KeypadKey::Three)
    } else if c == '4' {
        Some(KeypadKey::Four)
    } else if c == '5' {
        Some(KeypadKey::Five)
    } else if c == '6' {
        Some(KeypadKey::Six)
    } else if c == '7' {
        Some(KeypadKey::Seven)
    } else if c == '8' {
        Some(KeypadKey::Eight)
    } else if c == '9' {
        Some(KeypadKey::Nine)
    } else if c == '*' {
        Some(KeypadKey::Star)
    } else if c == '#' {
        Some(KeypadKey::Hash)
    } else {
        None
    }
}

/// The key presses that dial `number`: one keypad key per character, spaces
/// skipped. Any other character ends the work there, and is the error.
pub open spec fn phone_keys_of(number: Seq<char>) -> Result<Seq<PhoneKey>, char>
    decreases number.len(),
{
    if number.len() == 0 {
        Ok(Seq::empty())
    } else {
        let c = number.last();
        match phone_keys_of(number.drop_last()) {
            Err(e) => Err(e),
            Ok(keys) => if c == ' ' {
                Ok(keys)
            } else {
                match keypad_key_for(c) {
                    Some(k) => Ok(keys.push(PhoneKey::KeypadKey(k))),
                    None => Err(c),
                }
            },
        }
    }
}

/// The text the phone's web interface takes for a keypad key: the digit, and
/// nothing for `*` and `#`.
pub open spec fn keypad_key_text(key: KeypadKey) -> Seq<char> {
    match key {
        KeypadKey::Zero => "0"@,
        KeypadKey::One => "1"@,
        KeypadKey::Two => "2"@,
        KeypadKey::Three => "3"@,
        KeypadKey::Four => "4"@,
        KeypadKey::Five => "5"@,
        KeypadKey::Six => "6"@,
        KeypadKey::Seven => "7"@,
        KeypadKey::Eight => "8"@,
        KeypadKey::Nine => "9"@,
        _ => Seq::empty(),
    }
}

/// The values sent for a sequence of key presses: keypad keys and `SEND`;
/// the phone's other keys are not sent.
pub open spec fn key_values_of(keys: Seq<PhoneKey>) -> Seq<Seq<char>>
    decreases keys.len(),
{
    if keys.len() == 0 {
        Seq::empty()
    } else {
        let prev = key_values_of(keys.drop_last());
        match keys.last() {
            PhoneKey::KeypadKey(k) => prev.push(keypad_key_text(k)),
            PhoneKey::Send => prev.push("SEND"@),
            _ => prev,
        }
    }
}

fn keypad_key_of(c: char) -> (r: Option<KeypadKey>)
    ensures
        r == keypad_key_for(c),
{
    match c {
        '0' => Some(KeypadKey::Zero),
        '1' => Some(KeypadKey::One),
        '2' => Some(KeypadKey::Two),
        '3' => Some(KeypadKey::Three),
        '4' => Some(KeypadKey::Four),
        '5' => Some(KeypadKey::Five),
        '6' => Some(KeypadKey::Six),
        '7' => Some(KeypadKey::Seven),
        '8' => Some(KeypadKey::Eight),
        '9' => Some(KeypadKey::Nine),
        '*' => Some(KeypadKey::Star),
        '#' => Some(KeypadKey::Hash),
        _ => None,
    }
}

/// The key presses that dial `number`, or the first character that no key
/// dials.
pub fn phone_keys(number: &str) -> (r: Result<Vec<PhoneKey>, char>)
    ensures
        match (r, phone_keys_of(number@)) {
            (Ok(keys), Ok(expected)) => keys@ == expected,
            (Err(c), Err(expected)) => c == expected,
            _ => false,
        },
{
    let chars = chars_of(number);
    let mut keys: Vec<PhoneKey> = Vec::new();
    let mut i: usize = 0;
    while i < chars.len()
        invariant
            chars@ == number@,
            i <= chars@.len(),
            phone_keys_of(chars@.subrange(0, i as int)) == Ok::<Seq<PhoneKey>, char>(keys@),
        decreases chars@.len() - i,
    {
        let c = chars[i];
        assert(chars@.subrange(0, i + 1).drop_last() =~= chars@.subrange(0, i as int));
        if c != ' ' {
            match keypad_key_of(c) {
                Some(k) => keys.push(PhoneKey::KeypadKey(k)),
                None => {
                    proof {
                        lemma_phone_keys_stop(chars@, i as int);
                    }
                    return Err(c);
                },
            }
        }
        i = i + 1;
    }
    assert(chars@.subrange(0, i as int) =~= number@);
    Ok(keys)
}

/// An error in a prefix of a number is the error of the whole number.
proof fn lemma_phone_keys_stop(s: Seq<char>, i: int)
    requires
        0 <= i < s.len(),
        phone_keys_of(s.subrange(0, i + 1)) is Err,
    ensures
        phone_keys_of(s) == phone_keys_of(s.subrange(0, i + 1)),
    decreases s.len(),
{
    if i + 1 < s.len() {
        assert(s.drop_last().subrange(0, i + 1) =~= s.subrange(0, i + 1));
        lemma_phone_keys_stop(s.drop_last(), i);
    } else {
        assert(s.subrange(0, i + 1) =~= s);
    }
}

/// The text sent for a keypad key: its digit, and nothing for `*` and `#`.
pub fn keypad_key_to_string(key: KeypadKey) -> (r: String)
    ensures
        r@ == keypad_key_text(key),
{
    match key {
        KeypadKey::Zero => String::from_str("0"),
        KeypadKey::One => String::from_str("1"),
        KeypadKey::Two => String::from_str("2"),
        KeypadKey::Three => String::from_str("3"),
        KeypadKey::Four => String::from_str("4"),
        KeypadKey::Five => String::from_str("5"),
        KeypadKey::Six => String::from_str("6"),
        KeypadKey::Seven => String::from_str("7"),
        KeypadKey::Eight => String::from_str("8"),
        KeypadKey::Nine => String::from_str("9"),
        _ => String::new(),
    }
}

/// The values sent, one request each, for a sequence of key presses.
pub fn key_values(keys: &Vec<PhoneKey>) -> (r: Vec<String>)
    ensures
        r@.len() == key_values_of(keys@).len(),
        forall|i: int| 0 <= i < r@.len() ==> (#[trigger] r@[i])@ == key_values_of(keys@)[i],
{
    let mut r: Vec<String> = Vec::new();
    let mut i: usize = 0;
    while i < keys.len()
        invariant
            i <= keys@.len(),
            r@.len() == key_values_of(keys@.subrange(0, i as int)).len(),
            forall|j: int|
                0 <= j < r@.len() ==> (#[trigger] r@[j])@ == key_values_of(
                    keys@.subrange(0, i as int),
                )[j],
        decreases keys@.len() - i,
    {
        assert(keys@.subrange(0, i + 1).drop_last() =~= keys@.subrange(0, i as int));
        match &keys[i] {
            PhoneKey::KeypadKey(k) => r.push(keypad_key_to_string(*k)),
            PhoneKey::Send => r.push(String::from_str("SEND")),
            _ => {},
        }
        i = i + 1;
    }
    assert(keys@.subrange(0, i as int) =~= keys@);
    r
}

/// The address that key presses are posted to, on the phone at `address`.
pub fn send_key_url(address: &str) -> (r: String)
    ensures
        r@ == "https://"@ + address@ + "/cgi-bin/api-send_key"@,
{
    let mut r = String::from_str("https://");
    r.append(address);
    r.append("/cgi-bin/api-send_key");
    r
}

/// The address that reports the state of the lines, on the phone at
/// `address` with the given passcode.
pub fn line_status_url(address: &str, password: &str) -> (r: String)
    ensures
        r@ == "https://"@ + address@ + "/cgi-bin/api-get_line_status?passcode="@ + password@,
{
    let mut r = String::from_str("https://");
    r.append(address);
    r.append("/cgi-bin/api-get_line_status?passcode=");
    r.append(password);
    r
}

} // verus!
