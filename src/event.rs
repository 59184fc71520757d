use vstd::prelude::*;

verus! {

/// Host keys that a front-end can report
#[derive(Debug, Clone, Copy, PartialEq, Eq, Structural)]
pub enum Hotkey {
    Backspace,
    Tab,
    Return,
    Escape,
    Space,
    Exclaim,
    Quotedbl,
    Hash,
    Dollar,
    Percent,
    Ampersand,
    Quote,
    LeftParen,
    RightParen,
    Asterisk,
    Plus,
    Comma,
    Minus,
    Period,
    Slash,
    Num0,
    Num1,
    Num2,
    Num3,
    Num4,
    Num5,
    Num6,
    Num7,
    Num8,
    Num9,
    Colon,
    Semicolon,
    Less,
    Equals,
    Greater,
    Question,
    At,
    LeftBracket,
    Backslash,
    RightBracket,
    Caret,
    Underscore,
    Backquote,
    A,
    B,
    C,
    D,
    E,
    F,
    G,
    H,
    I,
    J,
    K,
    L,
    M,
    N,
    O,
    P,
    Q,
    R,
    S,
    T,
    U,
    V,
    W,
    X,
    Y,
    Z,
    Delete,
    CapsLock,
    F1,
    F2,
    F3,
    F4,
    F5,
    F6,
    F7,
    F8,
    F9,
    F10,
    F11,
    F12,
    PrintScreen,
    ScrollLock,
    Pause,
    Insert,
    Home,
    PageUp,
    End,
    PageDown,
    Right,
    Left,
    Down,
    Up,
    NumLockClear,
    KpDivide,
    KpMultiply,
    KpMinus,
    KpPlus,
    KpEnter,
    Kp1,
    Kp2,
    Kp3,
    Kp4,
    Kp5,
    Kp6,
    Kp7,
    Kp8,
    Kp9,
    Kp0,
    KpPeriod,
    Application,
    Power,
    KpEquals,
    F13,
    F14,
    F15,
    F16,
    F17,
    F18,
    F19,
    F20,
    F21,
    F22,
    F23,
    F24,
    Execute,
    Help,
    Menu,
    Select,
    Stop,
    Again,
    Undo,
    Cut,
    Copy,
    Paste,
    Find,
    Mute,
    VolumeUp,
    VolumeDown,
    KpComma,
    KpEqualsAS400,
    AltErase,
    Sysreq,
    Cancel,
    Clear,
    Prior,
    Return2,
    Separator,
    Out,
    Oper,
    ClearAgain,
    CrSel,
    ExSel,
    Kp00,
    Kp000,
    ThousandsSeparator,
    DecimalSeparator,
    CurrencyUnit,
    CurrencySubUnit,
    KpLeftParen,
    KpRightParen,
    KpLeftBrace,
    KpRightBrace,
    KpTab,
    KpBackspace,
    KpA,
    KpB,
    KpC,
    KpD,
    KpE,
    KpF,
    KpXor,
    KpPower,
    KpPercent,
    KpLess,
    KpGreater,
    KpAmpersand,
    KpDblAmpersand,
    KpVerticalBar,
    KpDblVerticalBar,
    KpColon,
    KpHash,
    KpSpace,
    KpAt,
    KpExclam,
    KpMemStore,
    KpMemRecall,
    KpMemClear,
    KpMemAdd,
    KpMemSubtract,
    KpMemMultiply,
    KpMemDivide,
    KpPlusMinus,
    KpClear,
    KpClearEntry,
    KpBinary,
    KpOctal,
    KpDecimal,
    KpHexadecimal,
    LCtrl,
    LShift,
    LAlt,
    LGui,
    RCtrl,
    RShift,
    RAlt,
    RGui,
    Mode,
    AudioNext,
    AudioPrev,
    AudioStop,
    AudioPlay,
    AudioMute,
    MediaSelect,
    Www,
    Mail,
    Calculator,
    Computer,
    AcSearch,
    AcHome,
    AcBack,
    AcForward,
    AcStop,
    AcRefresh,
    BrightnessDown,
    BrightnessUp,
    DisplaySwitch,
    KbdIllumToggle,
    KbdIllumDown,
    KbdIllumUp,
    Eject,
    Sleep,
    AcBookmarks,
}

/// Mouse buttons that a front-end can report
#[derive(Debug, Clone, Copy, PartialEq, Eq, Structural)]
pub enum MouseClick {
    Left,
    Middle,
    Right,
    Unknown,
}

/// Mouse down button with coordinates
#[derive(Debug, Clone, Copy, PartialEq, Eq, Structural)]
pub struct Mouse {
    /// Mouse button type
    pub click: MouseClick,
    /// x-axis
    pub x: i32,
    /// y-axis
    pub y: i32,
}

impl Mouse {
    pub fn new(click: MouseClick, x: i32, y: i32) -> (r: Self)
        ensures
            r == (Mouse { click, x, y }),
    {
        Self { click, x, y }
    }
}

/// One input event of the host
#[derive(Debug, Clone, Copy, PartialEq, Eq, Structural)]
pub enum Input {
    Hotkey(Hotkey),
    Mouse(Mouse),
}

/// The keypad index that a host key stands for. The layout follows the
/// hexadecimal keypad on an AZERTY keyboard:
///
/// ```text
/// 1 2 3 4      1 2 3 C
/// A Z E R      4 5 6 D
/// Q S D F  ->  7 8 9 E
/// W X C V      A 0 B F
/// ```
pub open spec fn hex_of_hotkey(key: Hotkey) -> Option<usize> {
    match key {
        Hotkey::Num1 | Hotkey::Kp1 => Some(0x01),
        Hotkey::Num2 | Hotkey::Kp2 => Some(0x02),
        Hotkey::Num3 | Hotkey::Kp3 => Some(0x03),
        Hotkey::Num4 | Hotkey::Kp4 => Some(0x0c),
        Hotkey::A => Some(0x04),
        Hotkey::Z => Some(0x05),
        Hotkey::E => Some(0x06),
        Hotkey::R => Some(0x0d),
        Hotkey::Q => Some(0x07),
        Hotkey::S => Some(0x08),
        Hotkey::D => Some(0x09),
        Hotkey::F => Some(0x0e),
        Hotkey::W => Some(0x0a),
        Hotkey::X => Some(0x00),
        Hotkey::C => Some(0x0b),
        Hotkey::V => Some(0x0f),
        _ => None,
    }
}

/// The keypad index of an input event, if it presses one.
pub open spec fn hex_of_input(input: Input) -> Option<usize> {
    match input {
        Input::Hotkey(key) => hex_of_hotkey(key),
        Input::Mouse(_) => None,
    }
}

/// The keypad indices pressed by a sequence of events, in order.
pub open spec fn keys_of(inputs: Seq<Input>) -> Seq<usize>
    decreases inputs.len(),
{
    if inputs.len() == 0 {
        Seq::empty()
    } else {
        let rest = keys_of(inputs.drop_last());
        match hex_of_input(inputs.last()) {
            Some(k) => rest.push(k),
            None => rest,
        }
    }
}

/// Every pressed index is a valid keypad index.
pub proof fn lemma_keys_of_bounded(inputs: Seq<Input>)
    ensures
        forall|j: int| 0 <= j < keys_of(inputs).len() ==> #[trigger] keys_of(inputs)[j] < 16,
    decreases inputs.len(),
{
    if inputs.len() > 0 {
        lemma_keys_of_bounded(inputs.drop_last());
        let rest = keys_of(inputs.drop_last());
        match hex_of_input(inputs.last()) {
            Some(k) => {
                assert(k < 16);
                assert(keys_of(inputs) == rest.push(k));
            },
            None => {},
        }
    }
}

impl Input {
    /// The keypad index this event presses, if any
    pub fn hex_key(&self) -> (r: Option<usize>)
        ensures
            r == hex_of_input(*self),
    {
        match self {
            Input::Hotkey(key) => match key {
                Hotkey::Num1 | Hotkey::Kp1 => Some(0x01),
                Hotkey::Num2 | Hotkey::Kp2 => Some(0x02),
                Hotkey::Num3 | Hotkey::Kp3 => Some(0x03),
                Hotkey::Num4 | Hotkey::Kp4 => Some(0x0c),
                Hotkey::A => Some(0x04),
                Hotkey::Z => Some(0x05),
                Hotkey::E => Some(0x06),
                Hotkey::R => Some(0x0d),
                Hotkey::Q => Some(0x07),
                Hotkey::S => Some(0x08),
                Hotkey::D => Some(0x09),
                Hotkey::F => Some(0x0e),
                Hotkey::W => Some(0x0a),
                Hotkey::X => Some(0x00),
                Hotkey::C => Some(0x0b),
                Hotkey::V => Some(0x0f),
                _ => None,
            },
            Input::Mouse(_) => None,
        }
    }

    /// Convert a vector of `Input` into the keypad indices it presses
    pub fn to_keys(inputs: Vec<Input>) -> (r: Vec<usize>)
        ensures
            r@ == keys_of(inputs@),
            forall|j: int| 0 <= j < r@.len() ==> #[trigger] r@[j] < 16,
    {
        let mut ret: Vec<usize> = Vec::new();
        let mut k: usize = 0;
        while k < inputs.len()
            invariant
                k <= inputs@.len(),
                ret@ == keys_of(inputs@.subrange(0, k as int)),
            decreases inputs@.len() - k,
        {
            proof {
                assert(inputs@.subrange(0, k + 1).drop_last() =~= inputs@.subrange(0, k as int));
            }
            if let Some(value) = inputs[k].hex_key() {
                ret.push(value);
            }
            k = k + 1;
        }
        proof {
            assert(inputs@.subrange(0, inputs@.len() as int) =~= inputs@);
            lemma_keys_of_bounded(inputs@);
        }
        ret
    }
}

} // verus!
