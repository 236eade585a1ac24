//! Interactive console input utility: prompt writing, line reading with
//! terminator stripping, and a yes/no confirmation loop, all specified over
//! in-memory character streams.

pub mod classify;
pub mod confirm;
pub mod reader;
pub mod stream;

pub use classify::answer;
pub use classify::answer_with;
pub use classify::Answer;
pub use classify::AnswerOptions;
pub use confirm::confirm;
pub use confirm::confirm_with;
pub use confirm::input_fmt;
pub use reader::read_line_expect;
pub use reader::InputError;
pub use stream::Sink;
pub use stream::Source;
