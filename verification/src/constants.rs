use vstd::prelude::*;

verus! {

// One-byte type tags used on the wire for document field values.

pub const NULL: i8 = -1;

pub const BOOLEAN: i8 = 0;

pub const INTEGER: i8 = 1;

pub const SHORT: i8 = 2;

pub const LONG: i8 = 3;

pub const FLOAT: i8 = 4;

pub const DOUBLE: i8 = 5;

pub const DATETIME: i8 = 6;

pub const STRING: i8 = 7;

pub const EMBEDDED: i8 = 9;

pub const EMBEDDEDLIST: i8 = 10;

pub const EMBEDDEDSET: i8 = 11;

pub const EMBEDDEDMAP: i8 = 12;

pub const LINK: i8 = 13;

pub const LINKLIST: i8 = 14;

pub const LINKSET: i8 = 15;

pub const BYTE: i8 = 17;

pub const DATE: i8 = 19;

pub const LINKBAG: i8 = 22;

} // verus!
