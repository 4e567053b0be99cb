//! Host-side driver logic: errors, events, the frame codec and reader, the
//! state record, the decisions of the read loop, the simulated board, and
//! board commands.

pub mod command;
pub mod dispatch;
pub mod driver_common;
pub mod error;
pub mod frame_codec;
pub mod frame_reader;
pub mod mock_core;
pub mod mock_data;
pub mod read_loop;
pub mod state;
pub mod transport;
