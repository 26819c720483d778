//! Domain enumerations stored with each trade, their names and codes, and
//! the display alias of a symbol.
use vstd::prelude::*;

verus! {

/// Whether two strings hold the same characters.
pub fn same_text(a: &str, b: &str) -> (r: bool)
    ensures
        r == (a@ == b@),
{
    let n = a.unicode_len();
    if n != b.unicode_len() {
        return false;
    }
    let mut i: usize = 0;
    while i < n
        invariant
            n == a@.len() == b@.len(),
            i <= n,
            forall|k: int| 0 <= k < i ==> a@[k] == b@[k],
        decreases n - i,
    {
        if a.get_char(i) != b.get_char(i) {
            return false;
        }
        i = i + 1;
    }
    assert(a@ =~= b@);
    true
}

/// Number of bytes a character takes in UTF-8.
pub open spec fn utf8_width(c: char) -> int {
    if (c as u32) < 0x80 {
        1
    } else if (c as u32) < 0x800 {
        2
    } else if (c as u32) < 0x10000 {
        3
    } else {
        4
    }
}

/// A futures symbol starts with `/`, one byte in UTF-8.
pub open spec fn is_futures(symbol: Seq<char>) -> bool {
    symbol.len() > 0 && symbol[0] == '/'
}

/// A futures symbol is at least three bytes long in UTF-8 and its third
/// byte ends a character: after the `/`, one two-byte character or two
/// one-byte characters.
pub open spec fn valid_symbol(symbol: Seq<char>) -> bool {
    is_futures(symbol) ==> (symbol.len() >= 2 && utf8_width(symbol[1]) == 2) || (symbol.len()
        >= 3 && utf8_width(symbol[1]) == 1 && utf8_width(symbol[2]) == 1)
}

/// A futures symbol (`/ESZ4`) is shown by its root, its first three bytes
/// in UTF-8 (`/ES`); any other symbol as it is.
pub open spec fn alias_of(symbol: Seq<char>) -> Seq<char> {
    if is_futures(symbol) {
        if symbol.len() >= 2 && utf8_width(symbol[1]) == 2 {
            symbol.subrange(0, 2)
        } else {
            symbol.subrange(0, 3)
        }
    } else {
        symbol
    }
}

/// Display alias of a symbol: the root of a futures symbol, otherwise the
/// symbol itself.
pub fn get_alias(symbol: &str) -> (r: String)
    requires
        valid_symbol(symbol@),
    ensures
        r@ == alias_of(symbol@),
{
    let n = symbol.unicode_len();
    if n > 0 && symbol.get_char(0) == '/' {
        let c = symbol.get_char(1) as u32;
        if 0x80 <= c && c < 0x800 {
            String::from_str(symbol.substring_char(0, 2))
        } else {
            String::from_str(symbol.substring_char(0, 3))
        }
    } else {
        String::from_str(symbol)
    }
}

/// Kind of instrument a trade is on.
#[derive(Clone, Copy, Debug, PartialEq, Eq, Structural)]
pub enum AssetType {
    Equity,
    EquityOption,
    Future,
    FutureOption,
}

/// The asset type an instrument-type name denotes, if any.
pub open spec fn asset_type_named(name: Seq<char>) -> Option<AssetType> {
    if name == "Equity"@ {
        Some(AssetType::Equity)
    } else if name == "Future"@ {
        Some(AssetType::Future)
    } else if name == "Equity Option"@ {
        Some(AssetType::EquityOption)
    } else if name == "Future Option"@ {
        Some(AssetType::FutureOption)
    } else {
        None
    }
}

impl AssetType {
    /// The asset type of an instrument-type name: `Equity`, `Future`,
    /// `Equity Option` or `Future Option`.
    pub fn get_asset_type(instrument_type: &str) -> (r: AssetType)
        requires
            asset_type_named(instrument_type@) is Some,
        ensures
            asset_type_named(instrument_type@) == Some(r),
    {
        if same_text(instrument_type, "Equity") {
            AssetType::Equity
        } else if same_text(instrument_type, "Future") {
            AssetType::Future
        } else if same_text(instrument_type, "Equity Option") {
            AssetType::EquityOption
        } else {
            AssetType::FutureOption
        }
    }

    /// Stored code: 1 to 4 in declaration order.
    pub fn code(&self) -> (r: i32)
        ensures
            r == match self {
                AssetType::Equity => 1i32,
                AssetType::EquityOption => 2,
                AssetType::Future => 3,
                AssetType::FutureOption => 4,
            },
    {
        match self {
            AssetType::Equity => 1,
            AssetType::EquityOption => 2,
            AssetType::Future => 3,
            AssetType::FutureOption => 4,
        }
    }

    /// The asset type of a stored code, if it is one.
    pub fn from_code(code: i32) -> (r: Option<AssetType>)
        ensures
            r matches Some(a) ==> a.code_spec() == code,
            r is None <==> !(1 <= code <= 4),
    {
        if code == 1 {
            Some(AssetType::Equity)
        } else if code == 2 {
            Some(AssetType::EquityOption)
        } else if code == 3 {
            Some(AssetType::Future)
        } else if code == 4 {
            Some(AssetType::FutureOption)
        } else {
            None
        }
    }

    pub open spec fn code_spec(&self) -> i32 {
        match self {
            AssetType::Equity => 1i32,
            AssetType::EquityOption => 2,
            AssetType::Future => 3,
            AssetType::FutureOption => 4,
        }
    }

    /// Display name.
    pub fn name(&self) -> (r: &'static str)
        ensures
            r@ == match self {
                AssetType::Equity => "Equity"@,
                AssetType::EquityOption => "EquityOption"@,
                AssetType::Future => "Future"@,
                AssetType::FutureOption => "FutureOption"@,
            },
    {
        match self {
            AssetType::Equity => "Equity",
            AssetType::EquityOption => "EquityOption",
            AssetType::Future => "Future",
            AssetType::FutureOption => "FutureOption",
        }
    }
}

/// Whether a position was opened for a credit or a debit.
#[derive(Clone, Copy, Debug, PartialEq, Eq, Structural)]
pub enum PriceEffect {
    Credit,
    Debit,
}

/// The price effect a name denotes, if any.
pub open spec fn price_effect_named(name: Seq<char>) -> Option<PriceEffect> {
    if name == "Credit"@ || name == "Short"@ {
        Some(PriceEffect::Credit)
    } else if name == "Debit"@ || name == "Long"@ {
        Some(PriceEffect::Debit)
    } else {
        None
    }
}

impl PriceEffect {
    /// The price effect of a name: `Credit` or `Short`, `Debit` or `Long`.
    pub fn from_name(name: &str) -> (r: PriceEffect)
        requires
            price_effect_named(name@) is Some,
        ensures
            price_effect_named(name@) == Some(r),
    {
        if same_text(name, "Credit") || same_text(name, "Short") {
            PriceEffect::Credit
        } else {
            PriceEffect::Debit
        }
    }

    /// Stored code: 1 for credit, 2 for debit.
    pub fn code(&self) -> (r: i32)
        ensures
            r == match self {
                PriceEffect::Credit => 1i32,
                PriceEffect::Debit => 2,
            },
    {
        match self {
            PriceEffect::Credit => 1,
            PriceEffect::Debit => 2,
        }
    }

    /// Display name.
    pub fn name(&self) -> (r: &'static str)
        ensures
            r@ == match self {
                PriceEffect::Credit => "Credit"@,
                PriceEffect::Debit => "Debit"@,
            },
    {
        match self {
            PriceEffect::Credit => "Credit",
            PriceEffect::Debit => "Debit",
        }
    }
}

/// Direction of an option position.
#[derive(Clone, Copy, Debug, PartialEq, Eq, Structural)]
pub enum Side {
    Call,
    Put,
    Neutral,
}

impl Side {
    /// The side of a stored code: 1 call, 2 put, anything else neutral.
    pub fn from_code(code: i32) -> (r: Side)
        ensures
            r == if code == 1 {
                Side::Call
            } else if code == 2 {
                Side::Put
            } else {
                Side::Neutral
            },
    {
        if code == 1 {
            Side::Call
        } else if code == 2 {
            Side::Put
        } else {
            Side::Neutral
        }
    }
}

/// Kind of option strategy a trade is.
#[derive(Clone, Copy, Debug, PartialEq, Eq, Structural)]
pub enum StrategyType {
    SingleLeg,
    CreditSpread,
    IronCondor,
    CalendarSpread,
    Other,
}

/// The strategy type a stored name denotes; unknown names are `Other`.
pub open spec fn strategy_type_named(name: Seq<char>) -> StrategyType {
    if name == "SingleLeg"@ {
        StrategyType::SingleLeg
    } else if name == "CreditSpread"@ {
        StrategyType::CreditSpread
    } else if name == "IronCondor"@ {
        StrategyType::IronCondor
    } else if name == "CalendarSpread"@ {
        StrategyType::CalendarSpread
    } else {
        StrategyType::Other
    }
}

impl StrategyType {
    /// The strategy type of a stored name, `Other` when it is none of the
    /// known ones.
    pub fn from_name(name: &str) -> (r: StrategyType)
        ensures
            r == strategy_type_named(name@),
    {
        if same_text(name, "SingleLeg") {
            StrategyType::SingleLeg
        } else if same_text(name, "CreditSpread") {
            StrategyType::CreditSpread
        } else if same_text(name, "IronCondor") {
            StrategyType::IronCondor
        } else if same_text(name, "CalendarSpread") {
            StrategyType::CalendarSpread
        } else {
            StrategyType::Other
        }
    }

    /// Display name, which is also the stored name.
    pub fn name(&self) -> (r: &'static str)
        ensures
            r@ == match self {
                StrategyType::SingleLeg => "SingleLeg"@,
                StrategyType::CreditSpread => "CreditSpread"@,
                StrategyType::IronCondor => "IronCondor"@,
                StrategyType::CalendarSpread => "CalendarSpread"@,
                StrategyType::Other => "Other"@,
            },
    {
        match self {
            StrategyType::SingleLeg => "SingleLeg",
            StrategyType::CreditSpread => "CreditSpread",
            StrategyType::IronCondor => "IronCondor",
            StrategyType::CalendarSpread => "CalendarSpread",
            StrategyType::Other => "Other",
        }
    }
}

} // verus!
