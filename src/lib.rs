pub mod reassembler;
pub mod screen;
pub mod session;
pub mod token;

pub use reassembler::{Reassembler, Status, Step, SCRATCH_CAPACITY};
pub use screen::{Cursor, Effect, Error, Screen};
pub use session::{Action, Session};
pub use token::{Control, Token};
