use vstd::prelude::*;
use crate::prelude::{NKRO_MIN_KEY, NKRO_MAX_KEY, MIN_MODIFIER, MAX_MODIFIER};

verus! {

/// Keyboard usages of the USB HID usage tables (keyboard/keypad page).
#[derive(Debug, Clone, Copy, PartialEq, Eq, Structural)]
pub enum KeyboardUsage {
    KeyboardErrorRollOver,
    KeyboardPOSTFail,
    KeyboardErrorUndefined,
    KeyboardAa,
    KeyboardBb,
    KeyboardCc,
    KeyboardDd,
    KeyboardEe,
    KeyboardFf,
    KeyboardGg,
    KeyboardHh,
    KeyboardIi,
    KeyboardJj,
    KeyboardKk,
    KeyboardLl,
    KeyboardMm,
    KeyboardNn,
    KeyboardOo,
    KeyboardPp,
    KeyboardQq,
    KeyboardRr,
    KeyboardSs,
    KeyboardTt,
    KeyboardUu,
    KeyboardVv,
    KeyboardWw,
    KeyboardXx,
    KeyboardYy,
    KeyboardZz,
    Keyboard1Exclamation,
    Keyboard2At,
    Keyboard3Hash,
    Keyboard4Dollar,
    Keyboard5Percent,
    Keyboard6Caret,
    Keyboard7Ampersand,
    Keyboard8Asterisk,
    Keyboard9OpenParens,
    Keyboard0CloseParens,
    KeyboardEnter,
    KeyboardEscape,
    KeyboardBackspace,
    KeyboardTab,
    KeyboardSpacebar,
    KeyboardDashUnderscore,
    KeyboardEqualPlus,
    KeyboardOpenBracketBrace,
    KeyboardCloseBracketBrace,
    KeyboardBackslashBar,
    KeyboardNonUSHash,
    KeyboardSemiColon,
    KeyboardSingleDoubleQuote,
    KeyboardBacktickTilde,
    KeyboardCommaLess,
    KeyboardPeriodGreater,
    KeyboardSlashQuestion,
    KeyboardCapsLock,
    KeyboardF1,
    KeyboardF2,
    KeyboardF3,
    KeyboardF4,
    KeyboardF5,
    KeyboardF6,
    KeyboardF7,
    KeyboardF8,
    KeyboardF9,
    KeyboardF10,
    KeyboardF11,
    KeyboardF12,
    KeyboardPrintScreen,
    KeyboardScrollLock,
    KeyboardPause,
    KeyboardInsert,
    KeyboardHome,
    KeyboardPageUp,
    KeyboardDelete,
    KeyboardEnd,
    KeyboardPageDown,
    KeyboardRightArrow,
    KeyboardLeftArrow,
    KeyboardDownArrow,
    KeyboardUpArrow,
    KeypadNumLock,
    KeypadDivide,
    KeypadMultiply,
    KeypadMinus,
    KeypadPlus,
    KeypadEnter,
    Keypad1End,
    Keypad2DownArrow,
    Keypad3PageDown,
    Keypad4LeftArrow,
    Keypad5,
    Keypad6RightArrow,
    Keypad7Home,
    Keypad8UpArrow,
    Keypad9PageUp,
    Keypad0Insert,
    KeypadPeriodDelete,
    KeyboardNonUSSlash,
    KeyboardApplication,
    KeyboardPower,
    KeypadEqual,
    KeyboardF13,
    KeyboardF14,
    KeyboardF15,
    KeyboardF16,
    KeyboardF17,
    KeyboardF18,
    KeyboardF19,
    KeyboardF20,
    KeyboardF21,
    KeyboardF22,
    KeyboardF23,
    KeyboardF24,
    KeyboardExecute,
    KeyboardHelp,
    KeyboardMenu,
    KeyboardSelect,
    KeyboardStop,
    KeyboardAgain,
    KeyboardUndo,
    KeyboardCut,
    KeyboardCopy,
    KeyboardPaste,
    KeyboardFind,
    KeyboardMute,
    KeyboardVolumeUp,
    KeyboardVolumeDown,
    KeyboardLockingCapsLock,
    KeyboardLockingNumLock,
    KeyboardLockingScrollLock,
    KeypadComma,
    KeypadEqualSign,
    KeyboardInternational1,
    KeyboardInternational2,
    KeyboardInternational3,
    KeyboardInternational4,
    KeyboardInternational5,
    KeyboardInternational6,
    KeyboardInternational7,
    KeyboardInternational8,
    KeyboardInternational9,
    KeyboardLANG1,
    KeyboardLANG2,
    KeyboardLANG3,
    KeyboardLANG4,
    KeyboardLANG5,
    KeyboardLANG6,
    KeyboardLANG7,
    KeyboardLANG8,
    KeyboardLANG9,
    KeyboardAlternateErase,
    KeyboardSysReqAttention,
    KeyboardCancel,
    KeyboardClear,
    KeyboardPrior,
    KeyboardReturn,
    KeyboardSeparator,
    KeyboardOut,
    KeyboardOper,
    KeyboardClearAgain,
    KeyboardCrSelProps,
    KeyboardExSel,
    Keypad00,
    Keypad000,
    ThousandsSeparator,
    DecimalSeparator,
    CurrencyUnit,
    CurrencySubunit,
    KeypadOpenParens,
    KeypadCloseParens,
    KeypadOpenBrace,
    KeypadCloseBrace,
    KeypadTab,
    KeypadBackspace,
    KeypadA,
    KeypadB,
    KeypadC,
    KeypadD,
    KeypadE,
    KeypadF,
    KeypadBitwiseXor,
    KeypadLogicalXor,
    KeypadModulo,
    KeypadLeftShift,
    KeypadRightShift,
    KeypadBitwiseAnd,
    KeypadLogicalAnd,
    KeypadBitwiseOr,
    KeypadLogicalOr,
    KeypadColon,
    KeypadHash,
    KeypadSpace,
    KeypadAt,
    KeypadExclamation,
    KeypadMemoryStore,
    KeypadMemoryRecall,
    KeypadMemoryClear,
    KeypadMemoryAdd,
    KeypadMemorySubtract,
    KeypadMemoryMultiply,
    KeypadMemoryDivide,
    KeypadPositiveNegative,
    KeypadClear,
    KeypadClearEntry,
    KeypadBinary,
    KeypadOctal,
    KeypadDecimal,
    KeypadHexadecimal,
    KeyboardLeftControl,
    KeyboardLeftShift,
    KeyboardLeftAlt,
    KeyboardLeftGUI,
    KeyboardRightControl,
    KeyboardRightShift,
    KeyboardRightAlt,
    KeyboardRightGUI,
    Reserved,
}

/// The usage code of a keyboard usage, as the HID usage tables number it.
pub open spec fn usage_code(u: KeyboardUsage) -> u8 {
    match u {
        KeyboardUsage::KeyboardErrorRollOver => 1,
        KeyboardUsage::KeyboardPOSTFail => 2,
        KeyboardUsage::KeyboardErrorUndefined => 3,
        KeyboardUsage::KeyboardAa => 4,
        KeyboardUsage::KeyboardBb => 5,
        KeyboardUsage::KeyboardCc => 6,
        KeyboardUsage::KeyboardDd => 7,
        KeyboardUsage::KeyboardEe => 8,
        KeyboardUsage::KeyboardFf => 9,
        KeyboardUsage::KeyboardGg => 10,
        KeyboardUsage::KeyboardHh => 11,
        KeyboardUsage::KeyboardIi => 12,
        KeyboardUsage::KeyboardJj => 13,
        KeyboardUsage::KeyboardKk => 14,
        KeyboardUsage::KeyboardLl => 15,
        KeyboardUsage::KeyboardMm => 16,
        KeyboardUsage::KeyboardNn => 17,
        KeyboardUsage::KeyboardOo => 18,
        KeyboardUsage::KeyboardPp => 19,
        KeyboardUsage::KeyboardQq => 20,
        KeyboardUsage::KeyboardRr => 21,
        KeyboardUsage::KeyboardSs => 22,
        KeyboardUsage::KeyboardTt => 23,
        KeyboardUsage::KeyboardUu => 24,
        KeyboardUsage::KeyboardVv => 25,
        KeyboardUsage::KeyboardWw => 26,
        KeyboardUsage::KeyboardXx => 27,
        KeyboardUsage::KeyboardYy => 28,
        KeyboardUsage::KeyboardZz => 29,
        KeyboardUsage::Keyboard1Exclamation => 30,
        KeyboardUsage::Keyboard2At => 31,
        KeyboardUsage::Keyboard3Hash => 32,
        KeyboardUsage::Keyboard4Dollar => 33,
        KeyboardUsage::Keyboard5Percent => 34,
        KeyboardUsage::Keyboard6Caret => 35,
        KeyboardUsage::Keyboard7Ampersand => 36,
        KeyboardUsage::Keyboard8Asterisk => 37,
        KeyboardUsage::Keyboard9OpenParens => 38,
        KeyboardUsage::Keyboard0CloseParens => 39,
        KeyboardUsage::KeyboardEnter => 40,
        KeyboardUsage::KeyboardEscape => 41,
        KeyboardUsage::KeyboardBackspace => 42,
        KeyboardUsage::KeyboardTab => 43,
        KeyboardUsage::KeyboardSpacebar => 44,
        KeyboardUsage::KeyboardDashUnderscore => 45,
        KeyboardUsage::KeyboardEqualPlus => 46,
        KeyboardUsage::KeyboardOpenBracketBrace => 47,
        KeyboardUsage::KeyboardCloseBracketBrace => 48,
        KeyboardUsage::KeyboardBackslashBar => 49,
        KeyboardUsage::KeyboardNonUSHash => 50,
        KeyboardUsage::KeyboardSemiColon => 51,
        KeyboardUsage::KeyboardSingleDoubleQuote => 52,
        KeyboardUsage::KeyboardBacktickTilde => 53,
        KeyboardUsage::KeyboardCommaLess => 54,
        KeyboardUsage::KeyboardPeriodGreater => 55,
        KeyboardUsage::KeyboardSlashQuestion => 56,
        KeyboardUsage::KeyboardCapsLock => 57,
        KeyboardUsage::KeyboardF1 => 58,
        KeyboardUsage::KeyboardF2 => 59,
        KeyboardUsage::KeyboardF3 => 60,
        KeyboardUsage::KeyboardF4 => 61,
        KeyboardUsage::KeyboardF5 => 62,
        KeyboardUsage::KeyboardF6 => 63,
        KeyboardUsage::KeyboardF7 => 64,
        KeyboardUsage::KeyboardF8 => 65,
        KeyboardUsage::KeyboardF9 => 66,
        KeyboardUsage::KeyboardF10 => 67,
        KeyboardUsage::KeyboardF11 => 68,
        KeyboardUsage::KeyboardF12 => 69,
        KeyboardUsage::KeyboardPrintScreen => 70,
        KeyboardUsage::KeyboardScrollLock => 71,
        KeyboardUsage::KeyboardPause => 72,
        KeyboardUsage::KeyboardInsert => 73,
        KeyboardUsage::KeyboardHome => 74,
        KeyboardUsage::KeyboardPageUp => 75,
        KeyboardUsage::KeyboardDelete => 76,
        KeyboardUsage::KeyboardEnd => 77,
        KeyboardUsage::KeyboardPageDown => 78,
        KeyboardUsage::KeyboardRightArrow => 79,
        KeyboardUsage::KeyboardLeftArrow => 80,
        KeyboardUsage::KeyboardDownArrow => 81,
        KeyboardUsage::KeyboardUpArrow => 82,
        KeyboardUsage::KeypadNumLock => 83,
        KeyboardUsage::KeypadDivide => 84,
        KeyboardUsage::KeypadMultiply => 85,
        KeyboardUsage::KeypadMinus => 86,
        KeyboardUsage::KeypadPlus => 87,
        KeyboardUsage::KeypadEnter => 88,
        KeyboardUsage::Keypad1End => 89,
        KeyboardUsage::Keypad2DownArrow => 90,
        KeyboardUsage::Keypad3PageDown => 91,
        KeyboardUsage::Keypad4LeftArrow => 92,
        KeyboardUsage::Keypad5 => 93,
        KeyboardUsage::Keypad6RightArrow => 94,
        KeyboardUsage::Keypad7Home => 95,
        KeyboardUsage::Keypad8UpArrow => 96,
        KeyboardUsage::Keypad9PageUp => 97,
        KeyboardUsage::Keypad0Insert => 98,
        KeyboardUsage::KeypadPeriodDelete => 99,
        KeyboardUsage::KeyboardNonUSSlash => 100,
        KeyboardUsage::KeyboardApplication => 101,
        KeyboardUsage::KeyboardPower => 102,
        KeyboardUsage::KeypadEqual => 103,
        KeyboardUsage::KeyboardF13 => 104,
        KeyboardUsage::KeyboardF14 => 105,
        KeyboardUsage::KeyboardF15 => 106,
        KeyboardUsage::KeyboardF16 => 107,
        KeyboardUsage::KeyboardF17 => 108,
        KeyboardUsage::KeyboardF18 => 109,
        KeyboardUsage::KeyboardF19 => 110,
        KeyboardUsage::KeyboardF20 => 111,
        KeyboardUsage::KeyboardF21 => 112,
        KeyboardUsage::KeyboardF22 => 113,
        KeyboardUsage::KeyboardF23 => 114,
        KeyboardUsage::KeyboardF24 => 115,
        KeyboardUsage::KeyboardExecute => 116,
        KeyboardUsage::KeyboardHelp => 117,
        KeyboardUsage::KeyboardMenu => 118,
        KeyboardUsage::KeyboardSelect => 119,
        KeyboardUsage::KeyboardStop => 120,
        KeyboardUsage::KeyboardAgain => 121,
        KeyboardUsage::KeyboardUndo => 122,
        KeyboardUsage::KeyboardCut => 123,
        KeyboardUsage::KeyboardCopy => 124,
        KeyboardUsage::KeyboardPaste => 125,
        KeyboardUsage::KeyboardFind => 126,
        KeyboardUsage::KeyboardMute => 127,
        KeyboardUsage::KeyboardVolumeUp => 128,
        KeyboardUsage::KeyboardVolumeDown => 129,
        KeyboardUsage::KeyboardLockingCapsLock => 130,
        KeyboardUsage::KeyboardLockingNumLock => 131,
        KeyboardUsage::KeyboardLockingScrollLock => 132,
        KeyboardUsage::KeypadComma => 133,
        KeyboardUsage::KeypadEqualSign => 134,
        KeyboardUsage::KeyboardInternational1 => 135,
        KeyboardUsage::KeyboardInternational2 => 136,
        KeyboardUsage::KeyboardInternational3 => 137,
        KeyboardUsage::KeyboardInternational4 => 138,
        KeyboardUsage::KeyboardInternational5 => 139,
        KeyboardUsage::KeyboardInternational6 => 140,
        KeyboardUsage::KeyboardInternational7 => 141,
        KeyboardUsage::KeyboardInternational8 => 142,
        KeyboardUsage::KeyboardInternational9 => 143,
        KeyboardUsage::KeyboardLANG1 => 144,
        KeyboardUsage::KeyboardLANG2 => 145,
        KeyboardUsage::KeyboardLANG3 => 146,
        KeyboardUsage::KeyboardLANG4 => 147,
        KeyboardUsage::KeyboardLANG5 => 148,
        KeyboardUsage::KeyboardLANG6 => 149,
        KeyboardUsage::KeyboardLANG7 => 150,
        KeyboardUsage::KeyboardLANG8 => 151,
        KeyboardUsage::KeyboardLANG9 => 152,
        KeyboardUsage::KeyboardAlternateErase => 153,
        KeyboardUsage::KeyboardSysReqAttention => 154,
        KeyboardUsage::KeyboardCancel => 155,
        KeyboardUsage::KeyboardClear => 156,
        KeyboardUsage::KeyboardPrior => 157,
        KeyboardUsage::KeyboardReturn => 158,
        KeyboardUsage::KeyboardSeparator => 159,
        KeyboardUsage::KeyboardOut => 160,
        KeyboardUsage::KeyboardOper => 161,
        KeyboardUsage::KeyboardClearAgain => 162,
        KeyboardUsage::KeyboardCrSelProps => 163,
        KeyboardUsage::KeyboardExSel => 164,
        KeyboardUsage::Keypad00 => 176,
        KeyboardUsage::Keypad000 => 177,
        KeyboardUsage::ThousandsSeparator => 178,
        KeyboardUsage::DecimalSeparator => 179,
        KeyboardUsage::CurrencyUnit => 180,
        KeyboardUsage::CurrencySubunit => 181,
        KeyboardUsage::KeypadOpenParens => 182,
        KeyboardUsage::KeypadCloseParens => 183,
        KeyboardUsage::KeypadOpenBrace => 184,
        KeyboardUsage::KeypadCloseBrace => 185,
        KeyboardUsage::KeypadTab => 186,
        KeyboardUsage::KeypadBackspace => 187,
        KeyboardUsage::KeypadA => 188,
        KeyboardUsage::KeypadB => 189,
        KeyboardUsage::KeypadC => 190,
        KeyboardUsage::KeypadD => 191,
        KeyboardUsage::KeypadE => 192,
        KeyboardUsage::KeypadF => 193,
        KeyboardUsage::KeypadBitwiseXor => 194,
        KeyboardUsage::KeypadLogicalXor => 195,
        KeyboardUsage::KeypadModulo => 196,
        KeyboardUsage::KeypadLeftShift => 197,
        KeyboardUsage::KeypadRightShift => 198,
        KeyboardUsage::KeypadBitwiseAnd => 199,
        KeyboardUsage::KeypadLogicalAnd => 200,
        KeyboardUsage::KeypadBitwiseOr => 201,
        KeyboardUsage::KeypadLogicalOr => 202,
        KeyboardUsage::KeypadColon => 203,
        KeyboardUsage::KeypadHash => 204,
        KeyboardUsage::KeypadSpace => 205,
        KeyboardUsage::KeypadAt => 206,
        KeyboardUsage::KeypadExclamation => 207,
        KeyboardUsage::KeypadMemoryStore => 208,
        KeyboardUsage::KeypadMemoryRecall => 209,
        KeyboardUsage::KeypadMemoryClear => 210,
        KeyboardUsage::KeypadMemoryAdd => 211,
        KeyboardUsage::KeypadMemorySubtract => 212,
        KeyboardUsage::KeypadMemoryMultiply => 213,
        KeyboardUsage::KeypadMemoryDivide => 214,
        KeyboardUsage::KeypadPositiveNegative => 215,
        KeyboardUsage::KeypadClear => 216,
        KeyboardUsage::KeypadClearEntry => 217,
        KeyboardUsage::KeypadBinary => 218,
        KeyboardUsage::KeypadOctal => 219,
        KeyboardUsage::KeypadDecimal => 220,
        KeyboardUsage::KeypadHexadecimal => 221,
        KeyboardUsage::KeyboardLeftControl => 224,
        KeyboardUsage::KeyboardLeftShift => 225,
        KeyboardUsage::KeyboardLeftAlt => 226,
        KeyboardUsage::KeyboardLeftGUI => 227,
        KeyboardUsage::KeyboardRightControl => 228,
        KeyboardUsage::KeyboardRightShift => 229,
        KeyboardUsage::KeyboardRightAlt => 230,
        KeyboardUsage::KeyboardRightGUI => 231,
        KeyboardUsage::Reserved => 232,
    }
}

impl KeyboardUsage {
    /// The usage code of this usage.
    pub fn code(self) -> (r: u8)
        ensures
            r == usage_code(self),
    {
        match self {
            KeyboardUsage::KeyboardErrorRollOver => 1,
            KeyboardUsage::KeyboardPOSTFail => 2,
            KeyboardUsage::KeyboardErrorUndefined => 3,
            KeyboardUsage::KeyboardAa => 4,
            KeyboardUsage::KeyboardBb => 5,
            KeyboardUsage::KeyboardCc => 6,
            KeyboardUsage::KeyboardDd => 7,
            KeyboardUsage::KeyboardEe => 8,
            KeyboardUsage::KeyboardFf => 9,
            KeyboardUsage::KeyboardGg => 10,
            KeyboardUsage::KeyboardHh => 11,
            KeyboardUsage::KeyboardIi => 12,
            KeyboardUsage::KeyboardJj => 13,
            KeyboardUsage::KeyboardKk => 14,
            KeyboardUsage::KeyboardLl => 15,
            KeyboardUsage::KeyboardMm => 16,
            KeyboardUsage::KeyboardNn => 17,
            KeyboardUsage::KeyboardOo => 18,
            KeyboardUsage::KeyboardPp => 19,
            KeyboardUsage::KeyboardQq => 20,
            KeyboardUsage::KeyboardRr => 21,
            KeyboardUsage::KeyboardSs => 22,
            KeyboardUsage::KeyboardTt => 23,
            KeyboardUsage::KeyboardUu => 24,
            KeyboardUsage::KeyboardVv => 25,
            KeyboardUsage::KeyboardWw => 26,
            KeyboardUsage::KeyboardXx => 27,
            KeyboardUsage::KeyboardYy => 28,
            KeyboardUsage::KeyboardZz => 29,
            KeyboardUsage::Keyboard1Exclamation => 30,
            KeyboardUsage::Keyboard2At => 31,
            KeyboardUsage::Keyboard3Hash => 32,
            KeyboardUsage::Keyboard4Dollar => 33,
            KeyboardUsage::Keyboard5Percent => 34,
            KeyboardUsage::Keyboard6Caret => 35,
            KeyboardUsage::Keyboard7Ampersand => 36,
            KeyboardUsage::Keyboard8Asterisk => 37,
            KeyboardUsage::Keyboard9OpenParens => 38,
            KeyboardUsage::Keyboard0CloseParens => 39,
            KeyboardUsage::KeyboardEnter => 40,
            KeyboardUsage::KeyboardEscape => 41,
            KeyboardUsage::KeyboardBackspace => 42,
            KeyboardUsage::KeyboardTab => 43,
            KeyboardUsage::KeyboardSpacebar => 44,
            KeyboardUsage::KeyboardDashUnderscore => 45,
            KeyboardUsage::KeyboardEqualPlus => 46,
            KeyboardUsage::KeyboardOpenBracketBrace => 47,
            KeyboardUsage::KeyboardCloseBracketBrace => 48,
            KeyboardUsage::KeyboardBackslashBar => 49,
            KeyboardUsage::KeyboardNonUSHash => 50,
            KeyboardUsage::KeyboardSemiColon => 51,
            KeyboardUsage::KeyboardSingleDoubleQuote => 52,
            KeyboardUsage::KeyboardBacktickTilde => 53,
            KeyboardUsage::KeyboardCommaLess => 54,
            KeyboardUsage::KeyboardPeriodGreater => 55,
            KeyboardUsage::KeyboardSlashQuestion => 56,
            KeyboardUsage::KeyboardCapsLock => 57,
            KeyboardUsage::KeyboardF1 => 58,
            KeyboardUsage::KeyboardF2 => 59,
            KeyboardUsage::KeyboardF3 => 60,
            KeyboardUsage::KeyboardF4 => 61,
            KeyboardUsage::KeyboardF5 => 62,
            KeyboardUsage::KeyboardF6 => 63,
            KeyboardUsage::KeyboardF7 => 64,
            KeyboardUsage::KeyboardF8 => 65,
            KeyboardUsage::KeyboardF9 => 66,
            KeyboardUsage::KeyboardF10 => 67,
            KeyboardUsage::KeyboardF11 => 68,
            KeyboardUsage::KeyboardF12 => 69,
            KeyboardUsage::KeyboardPrintScreen => 70,
            KeyboardUsage::KeyboardScrollLock => 71,
            KeyboardUsage::KeyboardPause => 72,
            KeyboardUsage::KeyboardInsert => 73,
            KeyboardUsage::KeyboardHome => 74,
            KeyboardUsage::KeyboardPageUp => 75,
            KeyboardUsage::KeyboardDelete => 76,
            KeyboardUsage::KeyboardEnd => 77,
            KeyboardUsage::KeyboardPageDown => 78,
            KeyboardUsage::KeyboardRightArrow => 79,
            KeyboardUsage::KeyboardLeftArrow => 80,
            KeyboardUsage::KeyboardDownArrow => 81,
            KeyboardUsage::KeyboardUpArrow => 82,
            KeyboardUsage::KeypadNumLock => 83,
            KeyboardUsage::KeypadDivide => 84,
            KeyboardUsage::KeypadMultiply => 85,
            KeyboardUsage::KeypadMinus => 86,
            KeyboardUsage::KeypadPlus => 87,
            KeyboardUsage::KeypadEnter => 88,
            KeyboardUsage::Keypad1End => 89,
            KeyboardUsage::Keypad2DownArrow => 90,
            KeyboardUsage::Keypad3PageDown => 91,
            KeyboardUsage::Keypad4LeftArrow => 92,
            KeyboardUsage::Keypad5 => 93,
            KeyboardUsage::Keypad6RightArrow => 94,
            KeyboardUsage::Keypad7Home => 95,
            KeyboardUsage::Keypad8UpArrow => 96,
            KeyboardUsage::Keypad9PageUp => 97,
            KeyboardUsage::Keypad0Insert => 98,
            KeyboardUsage::KeypadPeriodDelete => 99,
            KeyboardUsage::KeyboardNonUSSlash => 100,
            KeyboardUsage::KeyboardApplication => 101,
            KeyboardUsage::KeyboardPower => 102,
            KeyboardUsage::KeypadEqual => 103,
            KeyboardUsage::KeyboardF13 => 104,
            KeyboardUsage::KeyboardF14 => 105,
            KeyboardUsage::KeyboardF15 => 106,
            KeyboardUsage::KeyboardF16 => 107,
            KeyboardUsage::KeyboardF17 => 108,
            KeyboardUsage::KeyboardF18 => 109,
            KeyboardUsage::KeyboardF19 => 110,
            KeyboardUsage::KeyboardF20 => 111,
            KeyboardUsage::KeyboardF21 => 112,
            KeyboardUsage::KeyboardF22 => 113,
            KeyboardUsage::KeyboardF23 => 114,
            KeyboardUsage::KeyboardF24 => 115,
            KeyboardUsage::KeyboardExecute => 116,
            KeyboardUsage::KeyboardHelp => 117,
            KeyboardUsage::KeyboardMenu => 118,
            KeyboardUsage::KeyboardSelect => 119,
            KeyboardUsage::KeyboardStop => 120,
            KeyboardUsage::KeyboardAgain => 121,
            KeyboardUsage::KeyboardUndo => 122,
            KeyboardUsage::KeyboardCut => 123,
            KeyboardUsage::KeyboardCopy => 124,
            KeyboardUsage::KeyboardPaste => 125,
            KeyboardUsage::KeyboardFind => 126,
            KeyboardUsage::KeyboardMute => 127,
            KeyboardUsage::KeyboardVolumeUp => 128,
            KeyboardUsage::KeyboardVolumeDown => 129,
            KeyboardUsage::KeyboardLockingCapsLock => 130,
            KeyboardUsage::KeyboardLockingNumLock => 131,
            KeyboardUsage::KeyboardLockingScrollLock => 132,
            KeyboardUsage::KeypadComma => 133,
            KeyboardUsage::KeypadEqualSign => 134,
            KeyboardUsage::KeyboardInternational1 => 135,
            KeyboardUsage::KeyboardInternational2 => 136,
            KeyboardUsage::KeyboardInternational3 => 137,
            KeyboardUsage::KeyboardInternational4 => 138,
            KeyboardUsage::KeyboardInternational5 => 139,
            KeyboardUsage::KeyboardInternational6 => 140,
            KeyboardUsage::KeyboardInternational7 => 141,
            KeyboardUsage::KeyboardInternational8 => 142,
            KeyboardUsage::KeyboardInternational9 => 143,
            KeyboardUsage::KeyboardLANG1 => 144,
            KeyboardUsage::KeyboardLANG2 => 145,
            KeyboardUsage::KeyboardLANG3 => 146,
            KeyboardUsage::KeyboardLANG4 => 147,
            KeyboardUsage::KeyboardLANG5 => 148,
            KeyboardUsage::KeyboardLANG6 => 149,
            KeyboardUsage::KeyboardLANG7 => 150,
            KeyboardUsage::KeyboardLANG8 => 151,
            KeyboardUsage::KeyboardLANG9 => 152,
            KeyboardUsage::KeyboardAlternateErase => 153,
            KeyboardUsage::KeyboardSysReqAttention => 154,
            KeyboardUsage::KeyboardCancel => 155,
            KeyboardUsage::KeyboardClear => 156,
            KeyboardUsage::KeyboardPrior => 157,
            KeyboardUsage::KeyboardReturn => 158,
            KeyboardUsage::KeyboardSeparator => 159,
            KeyboardUsage::KeyboardOut => 160,
            KeyboardUsage::KeyboardOper => 161,
            KeyboardUsage::KeyboardClearAgain => 162,
            KeyboardUsage::KeyboardCrSelProps => 163,
            KeyboardUsage::KeyboardExSel => 164,
            KeyboardUsage::Keypad00 => 176,
            KeyboardUsage::Keypad000 => 177,
            KeyboardUsage::ThousandsSeparator => 178,
            KeyboardUsage::DecimalSeparator => 179,
            KeyboardUsage::CurrencyUnit => 180,
            KeyboardUsage::CurrencySubunit => 181,
            KeyboardUsage::KeypadOpenParens => 182,
            KeyboardUsage::KeypadCloseParens => 183,
            KeyboardUsage::KeypadOpenBrace => 184,
            KeyboardUsage::KeypadCloseBrace => 185,
            KeyboardUsage::KeypadTab => 186,
            KeyboardUsage::KeypadBackspace => 187,
            KeyboardUsage::KeypadA => 188,
            KeyboardUsage::KeypadB => 189,
            KeyboardUsage::KeypadC => 190,
            KeyboardUsage::KeypadD => 191,
            KeyboardUsage::KeypadE => 192,
            KeyboardUsage::KeypadF => 193,
            KeyboardUsage::KeypadBitwiseXor => 194,
            KeyboardUsage::KeypadLogicalXor => 195,
            KeyboardUsage::KeypadModulo => 196,
            KeyboardUsage::KeypadLeftShift => 197,
            KeyboardUsage::KeypadRightShift => 198,
            KeyboardUsage::KeypadBitwiseAnd => 199,
            KeyboardUsage::KeypadLogicalAnd => 200,
            KeyboardUsage::KeypadBitwiseOr => 201,
            KeyboardUsage::KeypadLogicalOr => 202,
            KeyboardUsage::KeypadColon => 203,
            KeyboardUsage::KeypadHash => 204,
            KeyboardUsage::KeypadSpace => 205,
            KeyboardUsage::KeypadAt => 206,
            KeyboardUsage::KeypadExclamation => 207,
            KeyboardUsage::KeypadMemoryStore => 208,
            KeyboardUsage::KeypadMemoryRecall => 209,
            KeyboardUsage::KeypadMemoryClear => 210,
            KeyboardUsage::KeypadMemoryAdd => 211,
            KeyboardUsage::KeypadMemorySubtract => 212,
            KeyboardUsage::KeypadMemoryMultiply => 213,
            KeyboardUsage::KeypadMemoryDivide => 214,
            KeyboardUsage::KeypadPositiveNegative => 215,
            KeyboardUsage::KeypadClear => 216,
            KeyboardUsage::KeypadClearEntry => 217,
            KeyboardUsage::KeypadBinary => 218,
            KeyboardUsage::KeypadOctal => 219,
            KeyboardUsage::KeypadDecimal => 220,
            KeyboardUsage::KeypadHexadecimal => 221,
            KeyboardUsage::KeyboardLeftControl => 224,
            KeyboardUsage::KeyboardLeftShift => 225,
            KeyboardUsage::KeyboardLeftAlt => 226,
            KeyboardUsage::KeyboardLeftGUI => 227,
            KeyboardUsage::KeyboardRightControl => 228,
            KeyboardUsage::KeyboardRightShift => 229,
            KeyboardUsage::KeyboardRightAlt => 230,
            KeyboardUsage::KeyboardRightGUI => 231,
            KeyboardUsage::Reserved => 232,
        }
    }
}

/// First usage code covered by the bitmap of the report; bit `(c - USB_USAGE_MIN) % 8` of byte
/// `(c - USB_USAGE_MIN) / 8` stands for usage code `c`.
pub const USB_USAGE_MIN: u8 = 0x02;
/// Number of rollover slots of the boot report.
pub const BOOT_KEYS: usize = 6;
/// Number of bytes of the usage bitmap.
pub const NKRO_BYTES: usize = 16;

/// The report sent to the host: a boot-compatible keyboard report followed by a bitmap with
/// one bit per usage code from `USB_USAGE_MIN` to `NKRO_MAX_KEY`.
#[derive(Debug, Clone, Copy, PartialEq, Eq)]
pub struct NKROBootKeyboardReport {
    /// One bit per modifier usage, bit `c - MIN_MODIFIER` for usage code `c`.
    pub modifier: u8,
    pub reserved: u8,
    /// Indicator state that the host controls.
    pub leds: u8,
    /// Usage codes of the normal keys held down, in first-fit order; 0 marks a free slot.
    pub boot_keys: [u8; 6],
    /// The usage bitmap.
    pub nkro_keys: [u8; 16],
}

/// The content of a report, its arrays as sequences.
pub struct ReportModel {
    pub modifier: u8,
    pub reserved: u8,
    pub leds: u8,
    pub boot_keys: Seq<u8>,
    pub nkro_keys: Seq<u8>,
}

impl View for NKROBootKeyboardReport {
    type V = ReportModel;

    open spec fn view(&self) -> ReportModel {
        ReportModel {
            modifier: self.modifier,
            reserved: self.reserved,
            leds: self.leds,
            boot_keys: self.boot_keys@,
            nkro_keys: self.nkro_keys@,
        }
    }
}

/// Index of the first slot at or after `i` that holds `v`, or the length when none does.
pub open spec fn first_slot(s: Seq<u8>, v: u8, i: int) -> int
    decreases s.len() - i,
{
    if 0 <= i < s.len() {
        if s[i] == v {
            i
        } else {
            first_slot(s, v, i + 1)
        }
    } else {
        s.len() as int
    }
}

/// Index of the last slot before `i` that holds `v`, or -1 when none does.
pub open spec fn last_slot(s: Seq<u8>, v: u8, i: int) -> int
    decreases i,
{
    if 0 < i <= s.len() {
        if s[i - 1] == v {
            i - 1
        } else {
            last_slot(s, v, i - 1)
        }
    } else {
        -1
    }
}

/// The report after a usage goes down. A normal key takes the first free rollover slot, if one
/// is left, and sets its bit of the bitmap; a modifier sets its bit of the modifier byte.
pub open spec fn report_press(r: ReportModel, k: KeyUsageAndIndex) -> ReportModel {
    match k {
        KeyUsageAndIndex::Normal { usage, byte, bit } => {
            let slot = first_slot(r.boot_keys, 0, 0);
            ReportModel {
                boot_keys: if slot < r.boot_keys.len() {
                    r.boot_keys.update(slot, usage)
                } else {
                    r.boot_keys
                },
                nkro_keys: r.nkro_keys.update(
                    byte as int,
                    r.nkro_keys[byte as int] | (1u8 << (bit as u8)),
                ),
                ..r
            }
        },
        KeyUsageAndIndex::Modifier { bit } => ReportModel {
            modifier: r.modifier | (1u8 << (bit as u8)),
            ..r
        },
    }
}

/// The report after a usage goes up. A normal key frees the last rollover slot that holds it,
/// if any, and clears its bit of the bitmap; a modifier clears its bit of the modifier byte.
pub open spec fn report_release(r: ReportModel, k: KeyUsageAndIndex) -> ReportModel {
    match k {
        KeyUsageAndIndex::Normal { usage, byte, bit } => {
            let slot = last_slot(r.boot_keys, usage, r.boot_keys.len() as int);
            ReportModel {
                boot_keys: if slot >= 0 {
                    r.boot_keys.update(slot, 0u8)
                } else {
                    r.boot_keys
                },
                nkro_keys: r.nkro_keys.update(
                    byte as int,
                    r.nkro_keys[byte as int] & !(1u8 << (bit as u8)),
                ),
                ..r
            }
        },
        KeyUsageAndIndex::Modifier { bit } => ReportModel {
            modifier: r.modifier & !(1u8 << (bit as u8)),
            ..r
        },
    }
}

/// The report with no key down: every byte zero.
pub open spec fn empty_report() -> ReportModel {
    ReportModel {
        modifier: 0,
        reserved: 0,
        leds: 0,
        boot_keys: Seq::new(6, |i: int| 0u8),
        nkro_keys: Seq::new(16, |i: int| 0u8),
    }
}

impl Default for NKROBootKeyboardReport {
    fn default() -> (r: Self)
        ensures
            r@ == empty_report(),
    {
        let r = NKROBootKeyboardReport {
            modifier: 0,
            reserved: 0,
            leds: 0,
            boot_keys: [0u8; 6],
            nkro_keys: [0u8; 16],
        };
        assert(r.boot_keys@ =~= Seq::new(6, |i: int| 0u8));
        assert(r.nkro_keys@ =~= Seq::new(16, |i: int| 0u8));
        r
    }
}

/// Where a usage shows in the report.
#[derive(Debug, Clone, Copy, PartialEq, Eq, Structural)]
pub enum KeyUsageAndIndex {
    /// A normal key: its code goes into a rollover slot, and bit `bit` of bitmap byte `byte`.
    Normal { usage: u8, byte: usize, bit: usize },
    /// A modifier: bit `bit` of the modifier byte.
    Modifier { bit: usize },
}

/// Usage codes that the report can carry.
pub open spec fn is_reportable(c: u8) -> bool {
    (NKRO_MIN_KEY <= c && c <= NKRO_MAX_KEY) || (MIN_MODIFIER <= c && c <= MAX_MODIFIER)
}

/// Where usage code `c` shows in the report.
pub open spec fn usage_place(c: u8) -> KeyUsageAndIndex {
    if NKRO_MIN_KEY <= c && c <= NKRO_MAX_KEY {
        KeyUsageAndIndex::Normal {
            usage: c,
            byte: ((c - USB_USAGE_MIN) / 8) as usize,
            bit: ((c - USB_USAGE_MIN) % 8) as usize,
        }
    } else {
        KeyUsageAndIndex::Modifier { bit: (c - MIN_MODIFIER) as usize }
    }
}

/// A place inside the report: bitmap byte and bit in range, modifier bit in range, and a
/// normal usage that is not the free-slot marker.
pub open spec fn place_in_range(k: KeyUsageAndIndex) -> bool {
    match k {
        KeyUsageAndIndex::Normal { usage, byte, bit } => usage != 0 && byte < NKRO_BYTES && bit < 8,
        KeyUsageAndIndex::Modifier { bit } => bit < 8,
    }
}

pub proof fn lemma_usage_place_in_range(c: u8)
    requires
        is_reportable(c),
    ensures
        place_in_range(usage_place(c)),
{
}

impl KeyUsageAndIndex {
    /// Where `usage` shows in the report.
    pub fn new(usage: KeyboardUsage) -> (r: Self)
        requires
            is_reportable(usage_code(usage)),
        ensures
            r == usage_place(usage_code(usage)),
    {
        let usage_idx = usage.code();
        if usage_idx >= NKRO_MIN_KEY && usage_idx <= NKRO_MAX_KEY {
            KeyUsageAndIndex::Normal {
                usage: usage_idx,
                byte: ((usage_idx - USB_USAGE_MIN) / 8) as usize,
                bit: ((usage_idx - USB_USAGE_MIN) % 8) as usize,
            }
        } else {
            KeyUsageAndIndex::Modifier { bit: (usage_idx - MIN_MODIFIER) as usize }
        }
    }
}

proof fn lemma_first_slot(s: Seq<u8>, v: u8, i: int)
    requires
        0 <= i <= s.len(),
    ensures
        i <= first_slot(s, v, i) <= s.len(),
        first_slot(s, v, i) < s.len() ==> s[first_slot(s, v, i)] == v,
    decreases s.len() - i,
{
    if i < s.len() && s[i] != v {
        lemma_first_slot(s, v, i + 1);
    }
}

proof fn lemma_last_slot_is(s: Seq<u8>, v: u8, f: int, i: int)
    requires
        0 <= f < i <= s.len(),
        s[f] == v,
        forall|k: int| f < k < i ==> s[k] != v,
    ensures
        last_slot(s, v, i) == f,
    decreases i,
{
    if i - 1 != f {
        lemma_last_slot_is(s, v, f, i - 1);
    }
}

/// A normal key that is neither in a rollover slot nor set in the bitmap, pressed while a slot
/// is free: it takes the first free slot, its bitmap bit is set and the modifier byte is left
/// alone; releasing it then gives back the report as it was before the press.
pub proof fn lemma_press_then_release(r: ReportModel, usage: u8, byte: usize, bit: usize)
    requires
        r.boot_keys.len() == BOOT_KEYS,
        r.nkro_keys.len() == NKRO_BYTES,
        place_in_range(KeyUsageAndIndex::Normal { usage, byte, bit }),
        !r.boot_keys.contains(usage),
        r.boot_keys.contains(0u8),
        r.nkro_keys[byte as int] & (1u8 << (bit as u8)) == 0,
    ensures
        ({
            let k = KeyUsageAndIndex::Normal { usage, byte, bit };
            let p = report_press(r, k);
            &&& 0 <= first_slot(r.boot_keys, 0, 0) < BOOT_KEYS
            &&& p.boot_keys[first_slot(r.boot_keys, 0, 0)] == usage
            &&& r.boot_keys[first_slot(r.boot_keys, 0, 0)] == 0
            &&& p.nkro_keys[byte as int] & (1u8 << (bit as u8)) != 0
            &&& p.modifier == r.modifier
            &&& report_release(p, k) == r
        }),
{
    let k = KeyUsageAndIndex::Normal { usage, byte, bit };
    let p = report_press(r, k);
    let f = first_slot(r.boot_keys, 0, 0);
    lemma_first_slot(r.boot_keys, 0, 0);
    let z = choose|z: int| 0 <= z < r.boot_keys.len() && r.boot_keys[z] == 0u8;
    assert(f < r.boot_keys.len()) by {
        if f >= r.boot_keys.len() {
            lemma_first_slot_none(r.boot_keys, 0u8, 0, z);
        }
    }
    lemma_last_slot_is(p.boot_keys, usage, f, BOOT_KEYS as int);
    let x = r.nkro_keys[byte as int];
    let b = bit as u8;
    assert(b < 8);
    assert(x & (1u8 << b) == 0 ==> (x | (1u8 << b)) & !(1u8 << b) == x && (x | (1u8 << b)) & (1u8
        << b) != 0) by (bit_vector)
        requires
            b < 8,
    ;
    let q = report_release(p, k);
    assert(q.boot_keys =~= r.boot_keys);
    assert(q.nkro_keys =~= r.nkro_keys);
}

proof fn lemma_first_slot_none(s: Seq<u8>, v: u8, i: int, z: int)
    requires
        0 <= i <= z < s.len(),
        s[z] == v,
    ensures
        first_slot(s, v, i) < s.len(),
    decreases z - i,
{
    if s[i] != v {
        lemma_first_slot_none(s, v, i + 1, z);
    }
}

/// A modifier press sets its bit and touches nothing else; its release clears the bit again.
pub proof fn lemma_modifier_press(r: ReportModel, bit: usize)
    requires
        bit < 8,
    ensures
        ({
            let p = report_press(r, KeyUsageAndIndex::Modifier { bit });
            &&& p.modifier & (1u8 << (bit as u8)) != 0
            &&& p.boot_keys == r.boot_keys
            &&& p.nkro_keys == r.nkro_keys
            &&& report_release(p, KeyUsageAndIndex::Modifier { bit }).modifier & (1u8 << (bit as u8)) == 0
        }),
{
    let m = r.modifier;
    let b = bit as u8;
    assert(b < 8 ==> (m | (1u8 << b)) & (1u8 << b) != 0 && ((m | (1u8 << b)) & !(1u8 << b)) & (1u8 << b) == 0) by (bit_vector);
}

} // verus!
