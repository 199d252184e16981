//! Sums the integers held one per line in a text, with a closed error taxonomy
//! (empty input, parse failure, I/O failure) whose causes stay attached.
pub mod err;
pub mod lines;
pub mod sum;

pub use err::{Error, ErrorCause, LibResult};
pub use lines::split_lines;
pub use sum::{convert_vec, file_sum, sum_lines};
