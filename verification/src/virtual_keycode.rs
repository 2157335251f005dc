//! Numbers of the virtual keys that the library reads.
//!
//! A virtual key code is the number that winit gives a key: the position of
//! the key in its enumeration `VirtualKeyCode`, counted from zero. The digits
//! `1` to `9` come first, then `0`, then the letters, `Escape`, and so on.
use vstd::prelude::*;

verus! {

pub const KEY1: u32 = 0;

pub const KEY2: u32 = 1;

pub const KEY3: u32 = 2;

pub const KEY4: u32 = 3;

pub const KEY5: u32 = 4;

pub const KEY6: u32 = 5;

pub const KEY7: u32 = 6;

pub const KEY8: u32 = 7;

pub const KEY9: u32 = 8;

pub const KEY0: u32 = 9;

pub const A: u32 = 10;

pub const B: u32 = 11;

pub const C: u32 = 12;

pub const D: u32 = 13;

pub const E: u32 = 14;

pub const F: u32 = 15;

pub const G: u32 = 16;

pub const H: u32 = 17;

pub const I: u32 = 18;

pub const J: u32 = 19;

pub const K: u32 = 20;

pub const L: u32 = 21;

pub const M: u32 = 22;

pub const N: u32 = 23;

pub const O: u32 = 24;

pub const P: u32 = 25;

pub const Q: u32 = 26;

pub const R: u32 = 27;

pub const S: u32 = 28;

pub const T: u32 = 29;

pub const U: u32 = 30;

pub const V: u32 = 31;

pub const W: u32 = 32;

pub const X: u32 = 33;

pub const Y: u32 = 34;

pub const Z: u32 = 35;

pub const ESCAPE: u32 = 36;

pub const LEFT: u32 = 70;

pub const UP: u32 = 71;

pub const RIGHT: u32 = 72;

pub const DOWN: u32 = 73;

pub const RETURN: u32 = 75;

pub const SPACE: u32 = 76;

pub const TAB: u32 = 146;

} // verus!
