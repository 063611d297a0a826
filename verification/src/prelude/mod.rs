//! Small conveniences used next to the task channel.
mod result_option_inspect;

pub use result_option_inspect::{OptionInspector, ResultInspector};
