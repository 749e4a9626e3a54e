//! Start-up logic of a Ratatui console application for the Nintendo Switch homebrew
//! environment: choosing the heap the program runs on, and the schedule of the
//! demo console loop.

pub mod heap;
pub mod message_loop;
