//! Verified core of a split user-space / kernel-space camera pipeline:
//! the control protocol spoken over the helper character device, the helper's
//! state, the V4L2 bring-up sequence of the capture client, the page-frame
//! resolver's arithmetic, the inference RPC framing, the admission throttle
//! of the inference server, the queue of the worker pool, and the pictures
//! made of raw frames.
//!
//! Every function here works on plain values. Device files, sockets, memory
//! mappings and threads belong to the program around this library, which
//! performs the actions that the functions here decide upon.

pub mod bytes;
pub mod ioctl;
pub mod protocol;
pub mod helper;
pub mod rpc;
pub mod throttle;
pub mod pagemap;
pub mod v4l2;
pub mod capture;
pub mod recognizer;
pub mod server;
pub mod pool;
pub mod frame;
