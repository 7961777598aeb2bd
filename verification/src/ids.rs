//! The identifiers of the frames that this crate reads, each as the big-endian value
//! of its four ASCII letters.

use vstd::prelude::*;

verus! {

pub const COMM: u32 = 0x434f_4d4d;

pub const PRIV: u32 = 0x5052_4956;

pub const RVRB: u32 = 0x5256_5242;

pub const TALB: u32 = 0x5441_4c42;

pub const TBPM: u32 = 0x5442_504d;

pub const TCOM: u32 = 0x5443_4f4d;

pub const TCON: u32 = 0x5443_4f4e;

pub const TCOP: u32 = 0x5443_4f50;

pub const TDEN: u32 = 0x5444_454e;

pub const TDLY: u32 = 0x5444_4c59;

pub const TDOR: u32 = 0x5444_4f52;

pub const TDRC: u32 = 0x5444_5243;

pub const TDRL: u32 = 0x5444_524c;

pub const TDTG: u32 = 0x5444_5447;

pub const TENC: u32 = 0x5445_4e43;

pub const TEXT: u32 = 0x5445_5854;

pub const TIPL: u32 = 0x5449_504c;

pub const TIT1: u32 = 0x5449_5431;

pub const TIT2: u32 = 0x5449_5432;

pub const TIT3: u32 = 0x5449_5433;

pub const TLEN: u32 = 0x544c_454e;

pub const TMCL: u32 = 0x544d_434c;

pub const TMOO: u32 = 0x544d_4f4f;

pub const TOAL: u32 = 0x544f_414c;

pub const TOFN: u32 = 0x544f_464e;

pub const TOLY: u32 = 0x544f_4c59;

pub const TOPE: u32 = 0x544f_5045;

pub const TOWN: u32 = 0x544f_574e;

pub const TPE1: u32 = 0x5450_4531;

pub const TPE2: u32 = 0x5450_4532;

pub const TPE3: u32 = 0x5450_4533;

pub const TPE4: u32 = 0x5450_4534;

pub const TPOS: u32 = 0x5450_4f53;

pub const TPRO: u32 = 0x5450_524f;

pub const TPUB: u32 = 0x5450_5542;

pub const TRCK: u32 = 0x5452_434b;

pub const TRSN: u32 = 0x5452_534e;

pub const TRSO: u32 = 0x5452_534f;

pub const TSOA: u32 = 0x5453_4f41;

pub const TSOP: u32 = 0x5453_4f50;

pub const TSOT: u32 = 0x5453_4f54;

pub const TSRC: u32 = 0x5453_5243;

pub const TSSE: u32 = 0x5453_5345;

pub const TSST: u32 = 0x5453_5354;

pub const TXXX: u32 = 0x5458_5858;

pub const USLT: u32 = 0x5553_4c54;

pub const WCOM: u32 = 0x5743_4f4d;

pub const WCOP: u32 = 0x5743_4f50;

pub const WOAF: u32 = 0x574f_4146;

pub const WOAR: u32 = 0x574f_4152;

pub const WOAS: u32 = 0x574f_4153;

pub const WORS: u32 = 0x574f_5253;

pub const WPAY: u32 = 0x5750_4159;

pub const WPUB: u32 = 0x5750_5542;

} // verus!
