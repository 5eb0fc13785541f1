//! The state of the interface: which block has the focus, what each list
//! holds and what is selected in it. Nothing here draws or reads a terminal;
//! the functions say how the state moves under a key.

pub mod app;
pub mod block;
pub mod board;
pub mod menu;
pub mod trip;
pub mod widget;
