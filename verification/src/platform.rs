//! Types and helpers shared with the platform layer: per-frame input
//! button state, the offscreen pixel buffer, the game memory block, and
//! the optional debug file hooks. None of this touches the spatial logic;
//! it is the plain data that crosses the boundary each frame.

use vstd::prelude::*;

verus! {

/// Opaque handle identifying the thread a platform callback runs on.
pub struct ThreadContext {
    placeholder: i32,
}

impl ThreadContext {
    pub fn new() -> (t: ThreadContext) {
        ThreadContext { placeholder: 0 }
    }
}

/// Result of a debug whole-file read: the bytes and their count.
pub struct DebugReadFileResult {
    pub contents_size: u32,
    pub contents: Vec<u8>,
}

/// Pixel buffer the game draws into; the platform layer presents it.
#[derive(Clone)]
pub struct GameOffscreenBuffer {
    pub memory: Vec<u8>,
    pub width: i32,
    pub height: i32,
    pub pitch: i32,
    pub bytes_per_pixel: i32,
}

/// State of one logical button over a frame: whether it ended the frame
/// held down, and how many half transitions (press or release edges)
/// happened during the frame.
#[derive(Clone, Copy)]
pub struct GameButtonState {
    pub half_transition_count: i32,
    pub ended_down: bool,
}

/// The memory block handed to the game by the platform layer.
pub struct GameMemory {
    pub is_initialized: bool,
    pub permanent_storage_size: usize,
    pub permanent_storage: Vec<u8>,
    pub transient_storage_size: usize,
    pub transient_storage: Vec<u8>,
}

impl Default for GameMemory {
    /// An uninitialized memory block with empty storage.
    fn default() -> (m: GameMemory)
        ensures
            !m.is_initialized,
            m.permanent_storage_size == 0,
            m.permanent_storage@.len() == 0,
            m.transient_storage_size == 0,
            m.transient_storage@.len() == 0,
    {
        GameMemory {
            is_initialized: false,
            permanent_storage_size: 0,
            permanent_storage: Vec::new(),
            transient_storage_size: 0,
            transient_storage: Vec::new(),
        }
    }
}

/// Folds a key-up or key-down event into a button state: when the held
/// state changes, record it and count one half transition.
pub fn process_key_press(new_state: &mut GameButtonState, is_down: bool)
    requires
        old(new_state).half_transition_count < i32::MAX,
    ensures
        final(new_state).ended_down == is_down,
        old(new_state).ended_down != is_down ==> final(new_state).half_transition_count
            == old(new_state).half_transition_count + 1,
        old(new_state).ended_down == is_down ==> *final(new_state) == *old(new_state),
{
    if new_state.ended_down != is_down {
        new_state.ended_down = is_down;
        new_state.half_transition_count = new_state.half_transition_count + 1;
    }
}

/// A byte count of `value` megabytes.
pub fn megabytes(value: usize) -> (r: usize)
    requires
        value * 0x100000 <= usize::MAX,
    ensures
        r == value * 0x100000,
{
    value * 1024 * 1024
}

/// A byte count of `value` gigabytes.
pub fn gigabytes(value: usize) -> (r: usize)
    requires
        value * 0x40000000 <= usize::MAX,
    ensures
        r == value * 0x40000000,
{
    value * 1024 * 1024 * 1024
}

/// Debug hook: release the memory of a previously read file. Nothing is
/// wired behind the hook, so the buffer is left untouched.
pub fn debug_platform_free_file_memory(_thread: &ThreadContext, memory: &mut Vec<u8>)
    ensures
        *final(memory) == *old(memory),
{
}

/// Debug hook: read a whole file. Nothing is wired behind the hook, so
/// every read reports an empty file.
pub fn debug_platform_read_entire_file(_thread: &ThreadContext, _filename: &str) -> (r:
    DebugReadFileResult)
    ensures
        r.contents_size == 0,
        r.contents@.len() == 0,
{
    DebugReadFileResult { contents_size: 0, contents: Vec::new() }
}

/// Debug hook: write a whole file. Nothing is wired behind the hook, so
/// the write is reported as having succeeded.
pub fn debug_platform_write_entire_file(
    _thread: &ThreadContext,
    _filename: &str,
    _data: &[u8],
) -> (r: bool)
    ensures
        r,
{
    true
}

} // verus!
