//! A verified bridge between a script running on its own thread and a host
//! loop: the commands the script emits, the queue that carries them, the
//! write-once slot that binds the native functions to that queue, the
//! conversion of script values, and the decisions of one interpreter session.
pub mod command;
pub mod channel;
pub mod slot;
pub mod session;
pub mod clock;
pub mod marshal;
pub mod native;
