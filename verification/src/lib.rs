//! Dimensional analysis and unit notation: quantities carry a unit, units carry a
//! dimension, and only quantities of equal dimension may be added or compared.

pub mod command;
pub mod dimensions;
pub mod display;
pub mod expr;
pub mod infix;
pub mod number;
pub mod order;
pub mod read;
pub mod superscript;
pub mod system;
pub mod table;
pub mod text;
pub mod tokeniser;
pub mod units;

pub use crate::superscript::{num_to_super, super_to_num, superscript_to_number, to_superscript};
pub use crate::command::{evaluate, line_to_command, Command, Eval, Outcome};
pub use crate::dimensions::{Dimension, Quantity};
pub use crate::display::{make_display, UnitDisplay};
pub use crate::expr::{Arg, Expr, Operator};
pub use crate::infix::infix_to_postfix;
pub use crate::read::{unit_from_str, value_from_str};
pub use crate::tokeniser::Tokeniser;
pub use crate::number::Number;
pub use crate::system::{BaseUnits, UnitSystem};
pub use crate::table::Table;
pub use crate::units::{Unit, UnitError, Value};
