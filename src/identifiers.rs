//! Identifier values: validated, immutable text.
use vstd::prelude::*;

verus! {

/// Why a text was refused as an identifier.
#[derive(Clone, Copy, Debug, PartialEq, Eq, Structural, Hash)]
pub enum IdentifierError {
    Empty,
    MissingSeparator,
}

/// The character that a trader identifier must contain.
pub open spec fn is_separator(c: char) -> bool {
    c == '-'
}

/// The rule that `s` breaks as identifier text, if any: it must not be empty.
pub open spec fn text_error(s: Seq<char>) -> Option<IdentifierError> {
    if s.len() == 0 {
        Some(IdentifierError::Empty)
    } else {
        None
    }
}

/// The first rule that `s` breaks as a trader identifier, if any: it must not be
/// empty, and it must contain the separator.
pub open spec fn trader_text_error(s: Seq<char>) -> Option<IdentifierError> {
    match text_error(s) {
        Some(e) => Some(e),
        None => if exists|i: int| 0 <= i < s.len() && is_separator(#[trigger] s[i]) {
            None
        } else {
            Some(IdentifierError::MissingSeparator)
        },
    }
}

/// Scans `s` once and reports whether it breaks a rule of identifier text and
/// whether it contains the separator.
fn scan_text(s: &str) -> (r: (Option<IdentifierError>, bool))
    ensures
        r.0 == text_error(s@),
        r.1 == exists|i: int| 0 <= i < s@.len() && is_separator(#[trigger] s@[i]),
{
    let n = s.unicode_len();
    let mut i: usize = 0;
    let mut has_sep = false;
    while i < n
        invariant
            n == s@.len(),
            i <= n,
            has_sep == exists|j: int| 0 <= j < i && is_separator(#[trigger] s@[j]),
        decreases n - i,
    {
        if s.get_char(i) == '-' {
            has_sep = true;
        }
        i = i + 1;
    }
    let err = if n == 0 {
        Some(IdentifierError::Empty)
    } else {
        None
    };
    (err, has_sep)
}

/// Identifies a trader.
#[derive(Debug, PartialEq, Eq, Hash)]
pub struct TraderId {
    pub value: String,
}

impl Clone for TraderId {
    fn clone(&self) -> (r: Self)
        ensures
            r == *self,
    {
        TraderId { value: self.value.clone() }
    }
}

impl TraderId {
    /// Builds the identifier from `s`, or names the first rule that `s` breaks.
    pub fn new(s: &str) -> (r: Result<TraderId, IdentifierError>)
        ensures
            match trader_text_error(s@) {
                None => r matches Ok(id) && id.value@ == s@,
                Some(e) => r == Err::<TraderId, IdentifierError>(e),
            },
    {
        let (err, has_sep) = scan_text(s);
        match err {
            Some(e) => Err(e),
            None => if has_sep {
                Ok(TraderId { value: s.to_owned() })
            } else {
                Err(IdentifierError::MissingSeparator)
            },
        }
    }

    pub fn as_str(&self) -> (r: &str)
        ensures
            r@ == self.value@,
    {
        self.value.as_str()
    }
}

/// Identifies a trading strategy.
#[derive(Debug, PartialEq, Eq, Hash)]
pub struct StrategyId {
    pub value: String,
}

impl Clone for StrategyId {
    fn clone(&self) -> (r: Self)
        ensures
            r == *self,
    {
        StrategyId { value: self.value.clone() }
    }
}

impl StrategyId {
    /// Builds the identifier from `s`, or names the first rule that `s` breaks.
    pub fn new(s: &str) -> (r: Result<StrategyId, IdentifierError>)
        ensures
            match text_error(s@) {
                None => r matches Ok(id) && id.value@ == s@,
                Some(e) => r == Err::<StrategyId, IdentifierError>(e),
            },
    {
        let (err, _) = scan_text(s);
        match err {
            Some(e) => Err(e),
            None => Ok(StrategyId { value: s.to_owned() }),
        }
    }

    pub fn as_str(&self) -> (r: &str)
        ensures
            r@ == self.value@,
    {
        self.value.as_str()
    }
}

/// Identifies an instrument.
#[derive(Debug, PartialEq, Eq, Hash)]
pub struct InstrumentId {
    pub value: String,
}

impl Clone for InstrumentId {
    fn clone(&self) -> (r: Self)
        ensures
            r == *self,
    {
        InstrumentId { value: self.value.clone() }
    }
}

impl InstrumentId {
    /// Builds the identifier from `s`, or names the first rule that `s` breaks.
    pub fn new(s: &str) -> (r: Result<InstrumentId, IdentifierError>)
        ensures
            match text_error(s@) {
                None => r matches Ok(id) && id.value@ == s@,
                Some(e) => r == Err::<InstrumentId, IdentifierError>(e),
            },
    {
        let (err, _) = scan_text(s);
        match err {
            Some(e) => Err(e),
            None => Ok(InstrumentId { value: s.to_owned() }),
        }
    }

    pub fn as_str(&self) -> (r: &str)
        ensures
            r@ == self.value@,
    {
        self.value.as_str()
    }
}

/// Identifies an order, as its client numbers it.
#[derive(Debug, PartialEq, Eq, Hash)]
pub struct ClientOrderId {
    pub value: String,
}

impl Clone for ClientOrderId {
    fn clone(&self) -> (r: Self)
        ensures
            r == *self,
    {
        ClientOrderId { value: self.value.clone() }
    }
}

impl ClientOrderId {
    /// Builds the identifier from `s`, or names the first rule that `s` breaks.
    pub fn new(s: &str) -> (r: Result<ClientOrderId, IdentifierError>)
        ensures
            match text_error(s@) {
                None => r matches Ok(id) && id.value@ == s@,
                Some(e) => r == Err::<ClientOrderId, IdentifierError>(e),
            },
    {
        let (err, _) = scan_text(s);
        match err {
            Some(e) => Err(e),
            None => Ok(ClientOrderId { value: s.to_owned() }),
        }
    }

    pub fn as_str(&self) -> (r: &str)
        ensures
            r@ == self.value@,
    {
        self.value.as_str()
    }
}

/// Identifies an order, as a venue numbers it.
#[derive(Debug, PartialEq, Eq, Hash)]
pub struct VenueOrderId {
    pub value: String,
}

impl Clone for VenueOrderId {
    fn clone(&self) -> (r: Self)
        ensures
            r == *self,
    {
        VenueOrderId { value: self.value.clone() }
    }
}

impl VenueOrderId {
    /// Builds the identifier from `s`, or names the first rule that `s` breaks.
    pub fn new(s: &str) -> (r: Result<VenueOrderId, IdentifierError>)
        ensures
            match text_error(s@) {
                None => r matches Ok(id) && id.value@ == s@,
                Some(e) => r == Err::<VenueOrderId, IdentifierError>(e),
            },
    {
        let (err, _) = scan_text(s);
        match err {
            Some(e) => Err(e),
            None => Ok(VenueOrderId { value: s.to_owned() }),
        }
    }

    pub fn as_str(&self) -> (r: &str)
        ensures
            r@ == self.value@,
    {
        self.value.as_str()
    }
}

/// Identifies a trade (one fill).
#[derive(Debug, PartialEq, Eq, Hash)]
pub struct TradeId {
    pub value: String,
}

impl Clone for TradeId {
    fn clone(&self) -> (r: Self)
        ensures
            r == *self,
    {
        TradeId { value: self.value.clone() }
    }
}

impl TradeId {
    /// Builds the identifier from `s`, or names the first rule that `s` breaks.
    pub fn new(s: &str) -> (r: Result<TradeId, IdentifierError>)
        ensures
            match text_error(s@) {
                None => r matches Ok(id) && id.value@ == s@,
                Some(e) => r == Err::<TradeId, IdentifierError>(e),
            },
    {
        let (err, _) = scan_text(s);
        match err {
            Some(e) => Err(e),
            None => Ok(TradeId { value: s.to_owned() }),
        }
    }

    pub fn as_str(&self) -> (r: &str)
        ensures
            r@ == self.value@,
    {
        self.value.as_str()
    }
}

/// Identifies an account.
#[derive(Debug, PartialEq, Eq, Hash)]
pub struct AccountId {
    pub value: String,
}

impl Clone for AccountId {
    fn clone(&self) -> (r: Self)
        ensures
            r == *self,
    {
        AccountId { value: self.value.clone() }
    }
}

impl AccountId {
    /// Builds the identifier from `s`, or names the first rule that `s` breaks.
    pub fn new(s: &str) -> (r: Result<AccountId, IdentifierError>)
        ensures
            match text_error(s@) {
                None => r matches Ok(id) && id.value@ == s@,
                Some(e) => r == Err::<AccountId, IdentifierError>(e),
            },
    {
        let (err, _) = scan_text(s);
        match err {
            Some(e) => Err(e),
            None => Ok(AccountId { value: s.to_owned() }),
        }
    }

    pub fn as_str(&self) -> (r: &str)
        ensures
            r@ == self.value@,
    {
        self.value.as_str()
    }
}

/// Identifies a position.
#[derive(Debug, PartialEq, Eq, Hash)]
pub struct PositionId {
    pub value: String,
}

impl Clone for PositionId {
    fn clone(&self) -> (r: Self)
        ensures
            r == *self,
    {
        PositionId { value: self.value.clone() }
    }
}

impl PositionId {
    /// Builds the identifier from `s`, or names the first rule that `s` breaks.
    pub fn new(s: &str) -> (r: Result<PositionId, IdentifierError>)
        ensures
            match text_error(s@) {
                None => r matches Ok(id) && id.value@ == s@,
                Some(e) => r == Err::<PositionId, IdentifierError>(e),
            },
    {
        let (err, _) = scan_text(s);
        match err {
            Some(e) => Err(e),
            None => Ok(PositionId { value: s.to_owned() }),
        }
    }

    pub fn as_str(&self) -> (r: &str)
        ensures
            r@ == self.value@,
    {
        self.value.as_str()
    }
}

/// Identifies a list of linked orders.
#[derive(Debug, PartialEq, Eq, Hash)]
pub struct OrderListId {
    pub value: String,
}

impl Clone for OrderListId {
    fn clone(&self) -> (r: Self)
        ensures
            r == *self,
    {
        OrderListId { value: self.value.clone() }
    }
}

impl OrderListId {
    /// Builds the identifier from `s`, or names the first rule that `s` breaks.
    pub fn new(s: &str) -> (r: Result<OrderListId, IdentifierError>)
        ensures
            match text_error(s@) {
                None => r matches Ok(id) && id.value@ == s@,
                Some(e) => r == Err::<OrderListId, IdentifierError>(e),
            },
    {
        let (err, _) = scan_text(s);
        match err {
            Some(e) => Err(e),
            None => Ok(OrderListId { value: s.to_owned() }),
        }
    }

    pub fn as_str(&self) -> (r: &str)
        ensures
            r@ == self.value@,
    {
        self.value.as_str()
    }
}

impl Default for TraderId {
    fn default() -> (r: TraderId)
        ensures
            r.value@ == "TRADER-000"@,
    {
        TraderId { value: "TRADER-000".to_owned() }
    }
}

impl TraderId {
    /// The identifier's text as an owned string.
    pub fn to_string(&self) -> (r: String)
        ensures
            r@ == self.value@,
    {
        self.value.clone()
    }
}

/// Returns a copy of `trader_id` for a caller that owns handles by value.
pub fn trader_id_clone(trader_id: &TraderId) -> (r: TraderId)
    ensures
        r == *trader_id,
{
    trader_id.clone()
}

/// Releases a trader identifier handed out by value.
pub fn trader_id_drop(trader_id: TraderId) {
    let _ = trader_id;
}

} // verus!
