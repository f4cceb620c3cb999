//! The state of a calculator between two requests.
//!
//! A calculator owns its table and remembers the last evaluation, whether it
//! is current, the message of the last failure, and the listing that was
//! asked for.  Its front end reads the angle from the user and hands over what
//! came of parsing it; whether that is a real number is decided here.

use vstd::prelude::*;
use crate::binary64::Binary64;
use crate::degree::index_of;
use crate::range::{normalize_range, normalized_range, rows_of, table_rows, TableRow};
use crate::table::{evaluate, LookupTable, TrigResult, TABLE_SIZE};

verus! {

/// Why a request was not evaluated.
#[derive(Clone, Copy, Debug, PartialEq, Eq, Structural)]
pub enum CalcError {
    /// The text that the user entered is not a real number.
    InvalidAngleInput,
}

/// What the user is told where the entered text is not a real number.
pub open spec fn invalid_angle_message() -> Seq<char> {
    "please enter a valid angle value"@
}

/// The first degree of the listing of a new calculator.
pub const DEFAULT_TABLE_START: usize = 0;

/// The last degree of the listing of a new calculator.
pub const DEFAULT_TABLE_END: usize = 10;

/// A calculator: a table, the last evaluation and the listing asked for.
pub struct TrigCalculatorApp {
    table: LookupTable,
    result: Option<TrigResult>,
    calculated: bool,
    error_message: String,
    show_table: bool,
    table_start: usize,
    table_end: usize,
}

/// What a calculator holds, as plain values.
pub struct CalculatorState {
    /// The table.
    pub table: LookupTable,
    /// The last evaluation that succeeded, if there was one.
    pub result: Option<TrigResult>,
    /// Whether `result` belongs to the text as the user last left it.
    pub calculated: bool,
    /// The message of the last failure; empty after a success.
    pub error_message: Seq<char>,
    /// Whether the listing is shown.
    pub show_table: bool,
    /// The first degree of the listing.
    pub table_start: usize,
    /// The last degree of the listing.
    pub table_end: usize,
}

impl View for TrigCalculatorApp {
    type V = CalculatorState;

    closed spec fn view(&self) -> CalculatorState {
        CalculatorState {
            table: self.table,
            result: self.result,
            calculated: self.calculated,
            error_message: self.error_message@,
            show_table: self.show_table,
            table_start: self.table_start,
            table_end: self.table_end,
        }
    }
}

/// The angle of a request, given what came of parsing the entered text: the
/// parsed value where it is a real number.  A text that is no number has none,
/// and neither has one that stands for an infinity or for an undefined value.
pub open spec fn accepted_angle(parsed: Option<Binary64>) -> Option<Binary64> {
    match parsed {
        Some(angle) => if angle.finite() {
            Some(angle)
        } else {
            None
        },
        None => None,
    }
}

/// The state after a request, given what came of parsing the entered text.
///
/// A real number is evaluated against the table: the evaluation becomes the
/// result, it is current, and the message is cleared.  Anything else sets the
/// message and leaves the rest as it was: the last result stays, and stays
/// current if it was.
pub open spec fn after_request(state: CalculatorState, parsed: Option<Binary64>)
    -> CalculatorState {
    match accepted_angle(parsed) {
        Some(angle) => CalculatorState {
            result: Some(state.table.result(index_of(angle))),
            calculated: true,
            error_message: Seq::empty(),
            ..state
        },
        None => CalculatorState { error_message: invalid_angle_message(), ..state },
    }
}

/// What a request returns, given what came of parsing the entered text.
pub open spec fn outcome_of(state: CalculatorState, parsed: Option<Binary64>)
    -> Result<TrigResult, CalcError> {
    match accepted_angle(parsed) {
        Some(angle) => Ok(state.table.result(index_of(angle))),
        None => Err(CalcError::InvalidAngleInput),
    }
}

/// A request fails exactly where the entered text gave no real number, and
/// then with `InvalidAngleInput`.  A failed request changes nothing but the
/// message; a request that succeeds makes its result the current one.
pub proof fn lemma_request_fails_without_real_number(
    state: CalculatorState,
    parsed: Option<Binary64>,
)
    ensures
        outcome_of(state, parsed) is Err <==> !(parsed matches Some(angle) && angle.finite()),
        outcome_of(state, parsed) matches Err(error) ==> error == CalcError::InvalidAngleInput,
        outcome_of(state, parsed) is Err ==> after_request(state, parsed) == (CalculatorState {
            error_message: invalid_angle_message(),
            ..state
        }),
        outcome_of(state, parsed) is Ok ==> after_request(state, parsed).calculated,
        outcome_of(state, parsed) matches Ok(result) ==> after_request(state, parsed).result
            == Some(result),
{
}

/// The angle of a request: the parsed value where it is a real number, and
/// `InvalidAngleInput` where the text gave none.
pub fn check_angle(parsed: Option<Binary64>) -> (angle: Result<Binary64, CalcError>)
    ensures
        angle == match accepted_angle(parsed) {
            Some(accepted) => Ok::<Binary64, CalcError>(accepted),
            None => Err::<Binary64, CalcError>(CalcError::InvalidAngleInput),
        },
{
    match parsed {
        Some(angle) => {
            if angle.is_finite() {
                Ok(angle)
            } else {
                Err(CalcError::InvalidAngleInput)
            }
        },
        None => Err(CalcError::InvalidAngleInput),
    }
}

impl CalcError {
    /// The message for the user.
    pub fn message(&self) -> (message: String)
        ensures
            message@ == invalid_angle_message(),
    {
        "please enter a valid angle value".to_owned()
    }
}

impl TrigCalculatorApp {
    /// A calculator over the given table: nothing evaluated yet, no message,
    /// the listing hidden and set to the degrees from 0 to 10.
    pub fn new(table: LookupTable) -> (app: TrigCalculatorApp)
        ensures
            app@ == (CalculatorState {
                table,
                result: None,
                calculated: false,
                error_message: Seq::empty(),
                show_table: false,
                table_start: DEFAULT_TABLE_START,
                table_end: DEFAULT_TABLE_END,
            }),
    {
        TrigCalculatorApp {
            table,
            result: None,
            calculated: false,
            error_message: String::new(),
            show_table: false,
            table_start: DEFAULT_TABLE_START,
            table_end: DEFAULT_TABLE_END,
        }
    }

    /// Handles a request: `parsed` is what the entered text gave as an angle in
    /// degrees, or `None` where the text is not a number.  Only a real number
    /// is evaluated.
    pub fn calculate(&mut self, parsed: Option<Binary64>)
        -> (outcome: Result<TrigResult, CalcError>)
        ensures
            final(self)@ == after_request(old(self)@, parsed),
            outcome == outcome_of(old(self)@, parsed),
    {
        match check_angle(parsed) {
            Ok(angle) => {
                let result = evaluate(angle, &self.table);
                self.result = Some(result);
                self.calculated = true;
                self.error_message = String::new();
                Ok(result)
            },
            Err(error) => {
                self.error_message = error.message();
                Err(error)
            },
        }
    }

    /// Notes that the user has changed the text: the last result is no longer
    /// current.
    pub fn input_changed(&mut self)
        ensures
            final(self)@ == (CalculatorState { calculated: false, ..old(self)@ }),
    {
        self.calculated = false;
    }

    /// Shows or hides the listing.
    pub fn set_show_table(&mut self, show: bool)
        ensures
            final(self)@ == (CalculatorState { show_table: show, ..old(self)@ }),
    {
        self.show_table = show;
    }

    /// Sets the listing to a requested range, put in order and cut to fifty
    /// degrees past its start.
    pub fn set_table_range(&mut self, start: usize, end: usize)
        ensures
            final(self)@ == (CalculatorState {
                table_start: normalized_range(start as int, end as int).0 as usize,
                table_end: normalized_range(start as int, end as int).1 as usize,
                ..old(self)@
            }),
    {
        let (low, high) = normalize_range(start, end);
        self.table_start = low;
        self.table_end = high;
    }

    /// The table.
    pub fn table(&self) -> (table: &LookupTable)
        ensures
            *table == self@.table,
    {
        &self.table
    }

    /// The last evaluation that succeeded.
    pub fn result(&self) -> (result: Option<TrigResult>)
        ensures
            result == self@.result,
    {
        self.result
    }

    /// Whether the last evaluation is current.
    pub fn calculated(&self) -> (calculated: bool)
        ensures
            calculated == self@.calculated,
    {
        self.calculated
    }

    /// The message of the last failure; empty after a success.
    pub fn error_message(&self) -> (message: &str)
        ensures
            message@ == self@.error_message,
    {
        self.error_message.as_str()
    }

    /// Whether the listing is shown.
    pub fn show_table(&self) -> (show: bool)
        ensures
            show == self@.show_table,
    {
        self.show_table
    }

    /// The first degree of the listing.
    pub fn table_start(&self) -> (start: usize)
        ensures
            start == self@.table_start,
    {
        self.table_start
    }

    /// The last degree of the listing.
    pub fn table_end(&self) -> (end: usize)
        ensures
            end == self@.table_end,
    {
        self.table_end
    }

    /// The rows of the listing: one for each degree of the range, in rising
    /// order.
    pub fn listed_rows(&self) -> (rows: Vec<TableRow>)
        requires
            normalized_range(self@.table_start as int, self@.table_end as int).1 < TABLE_SIZE,
        ensures
            rows@ == rows_of(
                self@.table,
                normalized_range(self@.table_start as int, self@.table_end as int).0,
                normalized_range(self@.table_start as int, self@.table_end as int).1,
            ),
    {
        table_rows(&self.table, self.table_start, self.table_end)
    }
}

} // verus!
