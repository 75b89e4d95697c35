//! The decisions of a desktop application for file transfers between trusted devices.
//!
//! Each module holds the rules of one part: what is shown, what is answered, and what follows from
//! an event. Networking, storage and the window itself lie outside.

use vstd::prelude::*;

pub mod actions;
pub mod binary;
pub mod browse;
pub mod chat;
pub mod croc;
pub mod dates;
pub mod files;
pub mod listener;
pub mod network;
pub mod paths;
pub mod peerlist;
pub mod peers;
pub mod screen;
pub mod seqs;
pub mod settings;
pub mod size;
pub mod text;
pub mod textmap;
pub mod time;
pub mod transfer;
pub mod trust;
pub mod window;

verus! {

} // verus!
