//! Validation of order commands before they reach the broker.

use vstd::prelude::*;
use vstd::string::*;
use crate::domain::broker_error::BrokerError;
use crate::domain::order::{CancelCmd, OrderType, StatusQuery};
use crate::text::{byte_len, char_alphanumeric, is_alphanumeric, owned};

verus! {

/// Result of a validation: `Ok` or the reason for refusing.
pub type ValidationResult = Result<(), BrokerError>;

/// How an optional price of a command compares with the rules: absent,
/// not greater than zero, not a finite number, or acceptable.  The
/// classification of the number itself is done where the price is held.
#[derive(Debug, Clone, Copy, PartialEq, Eq, Structural)]
pub enum PriceCheck {
    Missing,
    NonPositive,
    NotFinite,
    Valid,
}

/// Whether `c` may appear in a symbol: alphanumeric, `.` or `-`.
pub open spec fn symbol_char_ok(c: char) -> bool {
    char_alphanumeric(c) || c == '.' || c == '-'
}

/// The first reason to refuse a symbol, in the order: empty, longer than 20
/// bytes, a character other than alphanumerics, `.` and `-` (the character
/// rule only when `check_chars`).
pub open spec fn symbol_error(s: Seq<char>, check_chars: bool) -> Option<Seq<char>> {
    if s.len() == 0 {
        Some("symbol cannot be empty"@)
    } else if byte_len(s) > 20 {
        Some("symbol too long (max 20 chars)"@)
    } else if check_chars && exists|i: int| 0 <= i < s.len() && !symbol_char_ok(#[trigger] s[i]) {
        Some("symbol contains invalid characters"@)
    } else {
        None
    }
}

/// The reason to refuse a quantity: zero, or above 1,000,000.
pub open spec fn quantity_error(q: u32) -> Option<Seq<char>> {
    if q == 0 {
        Some("quantity must be greater than 0"@)
    } else if q > 1_000_000 {
        Some("quantity exceeds maximum (1,000,000)"@)
    } else {
        None
    }
}

/// The reason to refuse an execution ID: empty, or longer than 100 bytes.
pub open spec fn execution_id_error(s: Seq<char>) -> Option<Seq<char>> {
    if s.len() == 0 {
        Some("execution_id cannot be empty"@)
    } else if byte_len(s) > 100 {
        Some("execution_id too long (max 100 chars)"@)
    } else {
        None
    }
}

/// The reason to refuse a price named `name` (`limit`, `stop`) that is
/// required or optional.
pub open spec fn price_error(p: PriceCheck, required: bool, name: Seq<char>) -> Option<Seq<char>> {
    match p {
        PriceCheck::Missing => if required {
            Some(name + " price required for "@ + name + " orders"@)
        } else {
            None
        },
        PriceCheck::NonPositive => Some(name + " price must be greater than 0"@),
        PriceCheck::NotFinite => Some(name + " price must be a valid number"@),
        PriceCheck::Valid => None,
    }
}

/// The reason to refuse a notional amount.
pub open spec fn notional_error(p: PriceCheck) -> Option<Seq<char>> {
    match p {
        PriceCheck::NonPositive => Some("notional must be greater than 0"@),
        PriceCheck::NotFinite => Some("notional must be a valid number"@),
        _ => None,
    }
}

/// Whether an order type carries a limit price.
pub open spec fn has_limit(t: OrderType) -> bool {
    t == OrderType::Limit || t == OrderType::StopLimit
}

/// Whether an order type carries a stop price.
pub open spec fn has_stop(t: OrderType) -> bool {
    t == OrderType::Stop || t == OrderType::StopLimit
}

/// The first reason to refuse an order, checking in turn the symbol, the
/// quantity, the limit price (limit orders), the stop price (stop orders)
/// and the notional amount.
pub open spec fn order_error(
    symbol: Seq<char>,
    qty: u32,
    order_type: OrderType,
    limit: PriceCheck,
    stop: PriceCheck,
    notional: PriceCheck,
) -> Option<Seq<char>> {
    if symbol_error(symbol, true) is Some {
        symbol_error(symbol, true)
    } else if quantity_error(qty) is Some {
        quantity_error(qty)
    } else if has_limit(order_type) && price_error(limit, true, "limit"@) is Some {
        price_error(limit, true, "limit"@)
    } else if has_stop(order_type) && price_error(stop, true, "stop"@) is Some {
        price_error(stop, true, "stop"@)
    } else {
        notional_error(notional)
    }
}

/// The first reason to refuse a replace command, checking in turn the
/// execution ID, the symbol (without the character rule), the quantity when
/// given and the limit price when given.
pub open spec fn replace_error(exec_id: Seq<char>, symbol: Seq<char>, qty: Option<u32>, limit: PriceCheck) -> Option<
    Seq<char>,
> {
    if execution_id_error(exec_id) is Some {
        execution_id_error(exec_id)
    } else if symbol_error(symbol, false) is Some {
        symbol_error(symbol, false)
    } else if qty is Some && quantity_error(qty->0) is Some {
        quantity_error(qty->0)
    } else {
        price_error(limit, false, "limit"@)
    }
}

/// The symbol rule: a symbol of 1 to 20 bytes is accepted exactly when
/// every character is alphanumeric, `.` or `-`; a symbol with any other
/// character is refused for its characters.
pub proof fn law_symbol_characters(s: Seq<char>)
    requires
        0 < s.len(),
        byte_len(s) <= 20,
    ensures
        (forall|i: int| 0 <= i < s.len() ==> (char_alphanumeric(#[trigger] s[i]) || s[i] == '.' || s[i] == '-'))
            ==> symbol_error(s, true) is None,
        (exists|i: int| 0 <= i < s.len() && !(char_alphanumeric(#[trigger] s[i]) || s[i] == '.' || s[i] == '-'))
            ==> symbol_error(s, true) == Some("symbol contains invalid characters"@),
        symbol_error(s, false) is None,
{
    if exists|i: int| 0 <= i < s.len() && !symbol_char_ok(#[trigger] s[i]) {
        let i = choose|i: int| 0 <= i < s.len() && !symbol_char_ok(#[trigger] s[i]);
        assert(!(char_alphanumeric(s[i]) || s[i] == '.' || s[i] == '-'));
    }
}

/// A validation result that refuses exactly with `reason`, if any.
pub open spec fn result_matches(r: ValidationResult, reason: Option<Seq<char>>) -> bool {
    match reason {
        None => r is Ok,
        Some(m) => r matches Err(BrokerError::Unknown(msg)) && msg@ == m,
    }
}

fn refuse(msg: &str) -> (r: ValidationResult)
    ensures
        result_matches(r, Some(msg@)),
{
    Err(BrokerError::Unknown(owned(msg)))
}

/// Validates order commands before submission.
pub struct RequestValidator;

impl RequestValidator {
    /// A validator.
    pub fn new() -> Self {
        RequestValidator
    }

    /// Check a symbol; see [`symbol_error`].
    pub fn validate_symbol(&self, symbol: &str, check_chars: bool) -> (r: ValidationResult)
        ensures
            result_matches(r, symbol_error(symbol@, check_chars)),
    {
        if symbol.unicode_len() == 0 {
            return refuse("symbol cannot be empty");
        }
        if symbol.as_bytes().len() > 20 {
            return refuse("symbol too long (max 20 chars)");
        }
        if check_chars {
            let n = symbol.unicode_len();
            let mut i: usize = 0;
            while i < n
                invariant
                    0 <= i <= n,
                    n == symbol@.len(),
                    n > 0,
                    check_chars,
                    byte_len(symbol@) <= 20,
                    forall|j: int| 0 <= j < i ==> symbol_char_ok(#[trigger] symbol@[j]),
                decreases n - i,
            {
                let c = symbol.get_char(i);
                if !(is_alphanumeric(c) || c == '.' || c == '-') {
                    assert(!symbol_char_ok(symbol@[i as int]));
                    return refuse("symbol contains invalid characters");
                }
                i = i + 1;
            }
        }
        Ok(())
    }

    /// Check a quantity; see [`quantity_error`].
    pub fn validate_quantity(&self, qty: u32) -> (r: ValidationResult)
        ensures
            result_matches(r, quantity_error(qty)),
    {
        if qty == 0 {
            return refuse("quantity must be greater than 0");
        }
        if qty > 1_000_000 {
            return refuse("quantity exceeds maximum (1,000,000)");
        }
        Ok(())
    }

    /// Check an execution ID; see [`execution_id_error`].
    pub fn validate_execution_id(&self, id: &str) -> (r: ValidationResult)
        ensures
            result_matches(r, execution_id_error(id@)),
    {
        if id.unicode_len() == 0 {
            return refuse("execution_id cannot be empty");
        }
        if id.as_bytes().len() > 100 {
            return refuse("execution_id too long (max 100 chars)");
        }
        Ok(())
    }

    fn check_limit(&self, p: PriceCheck, required: bool) -> (r: ValidationResult)
        ensures
            result_matches(r, price_error(p, required, "limit"@)),
    {
        proof {
            reveal_strlit("limit");
            reveal_strlit("limit price required for limit orders");
            reveal_strlit(" price required for ");
            reveal_strlit(" orders");
            reveal_strlit("limit price must be greater than 0");
            reveal_strlit(" price must be greater than 0");
            reveal_strlit("limit price must be a valid number");
            reveal_strlit(" price must be a valid number");
        }
        match p {
            PriceCheck::Missing => if required {
                let r = refuse("limit price required for limit orders");
                assert("limit price required for limit orders"@ =~= "limit"@ + " price required for "@
                    + "limit"@ + " orders"@);
                r
            } else {
                Ok(())
            },
            PriceCheck::NonPositive => {
                let r = refuse("limit price must be greater than 0");
                assert("limit price must be greater than 0"@ =~= "limit"@
                    + " price must be greater than 0"@);
                r
            },
            PriceCheck::NotFinite => {
                let r = refuse("limit price must be a valid number");
                assert("limit price must be a valid number"@ =~= "limit"@
                    + " price must be a valid number"@);
                r
            },
            PriceCheck::Valid => Ok(()),
        }
    }

    fn check_stop(&self, p: PriceCheck) -> (r: ValidationResult)
        ensures
            result_matches(r, price_error(p, true, "stop"@)),
    {
        proof {
            reveal_strlit("stop");
            reveal_strlit("stop price required for stop orders");
            reveal_strlit(" price required for ");
            reveal_strlit(" orders");
            reveal_strlit("stop price must be greater than 0");
            reveal_strlit(" price must be greater than 0");
            reveal_strlit("stop price must be a valid number");
            reveal_strlit(" price must be a valid number");
        }
        match p {
            PriceCheck::Missing => {
                let r = refuse("stop price required for stop orders");
                assert("stop price required for stop orders"@ =~= "stop"@ + " price required for "@
                    + "stop"@ + " orders"@);
                r
            },
            PriceCheck::NonPositive => {
                let r = refuse("stop price must be greater than 0");
                assert("stop price must be greater than 0"@ =~= "stop"@
                    + " price must be greater than 0"@);
                r
            },
            PriceCheck::NotFinite => {
                let r = refuse("stop price must be a valid number");
                assert("stop price must be a valid number"@ =~= "stop"@
                    + " price must be a valid number"@);
                r
            },
            PriceCheck::Valid => Ok(()),
        }
    }

    /// Validate an order submission whose prices have been classified;
    /// see [`order_error`].
    pub fn validate_order_checked(
        &self,
        symbol: &str,
        qty: u32,
        order_type: OrderType,
        limit: PriceCheck,
        stop: PriceCheck,
        notional: PriceCheck,
    ) -> (r: ValidationResult)
        ensures
            result_matches(r, order_error(symbol@, qty, order_type, limit, stop, notional)),
    {
        let s = self.validate_symbol(symbol, true);
        if s.is_err() {
            return s;
        }
        let q = self.validate_quantity(qty);
        if q.is_err() {
            return q;
        }
        if order_type == OrderType::Limit || order_type == OrderType::StopLimit {
            let l = self.check_limit(limit, true);
            if l.is_err() {
                return l;
            }
        }
        if order_type == OrderType::Stop || order_type == OrderType::StopLimit {
            let t = self.check_stop(stop);
            if t.is_err() {
                return t;
            }
        }
        match notional {
            PriceCheck::NonPositive => refuse("notional must be greater than 0"),
            PriceCheck::NotFinite => refuse("notional must be a valid number"),
            _ => Ok(()),
        }
    }

    /// Validate a replace command whose limit price has been classified;
    /// see [`replace_error`].
    pub fn validate_replace_checked(
        &self,
        execution_id: &str,
        symbol: &str,
        qty: Option<u32>,
        limit: PriceCheck,
    ) -> (r: ValidationResult)
        ensures
            result_matches(r, replace_error(execution_id@, symbol@, qty, limit)),
    {
        let e = self.validate_execution_id(execution_id);
        if e.is_err() {
            return e;
        }
        let s = self.validate_symbol(symbol, false);
        if s.is_err() {
            return s;
        }
        match qty {
            Some(q) => {
                let v = self.validate_quantity(q);
                if v.is_err() {
                    return v;
                }
            },
            None => {},
        }
        self.check_limit(limit, false)
    }

    /// Validate a cancel command; see [`execution_id_error`].
    pub fn validate_cancel(&self, cmd: &CancelCmd) -> (r: ValidationResult)
        ensures
            result_matches(r, execution_id_error(cmd.execution_id@)),
    {
        self.validate_execution_id(cmd.execution_id.0.as_str())
    }

    /// Validate a status query; see [`execution_id_error`].
    pub fn validate_query(&self, query: &StatusQuery) -> (r: ValidationResult)
        ensures
            result_matches(r, execution_id_error(query.execution_id@)),
    {
        self.validate_execution_id(query.execution_id.0.as_str())
    }
}

impl Default for RequestValidator {
    fn default() -> Self {
        RequestValidator
    }
}

} // verus!
