//! The character tables: for each variant, the map from plain characters to their styled
//! forms, and the map from every supported character back to its plain form.
//!
//! Characters are handled as code points. Each map is a list of ranges: a range of
//! consecutive keys sent to a range of consecutive values.
use vstd::prelude::*;

use crate::variant::Variant;

verus! {

/// The code point of an optional `u32`, as an integer.
pub open spec fn widen(r: Option<u32>) -> Option<int> {
    match r {
        Some(x) => Some(x as int),
        None => None,
    }
}

/// Unicode scalar values: code points that are not surrogates.
pub open spec fn is_scalar(x: int) -> bool {
    0 <= x < 0xd800 || 0xe000 <= x < 0x110000
}

/// The plain form of code point `c`, if `c` is supported. Plain characters map to themselves.
///
/// The ranges are laid out as a search tree over the code point, so that a lookup takes a
/// logarithmic number of comparisons.
pub open spec fn plain_code(c: int) -> Option<int> {
    if c < 0x1d586 {
        if c < 0x2091 {
            if c < 0x1d07 {
                if c < 0x391 {
                    if c < 0x28f {
                        if c < 0x237 {
                            if c < 0xb9 {
                                if c < 0xb2 {
                                    if 0x21 <= c < 0x7f {
                                        Some(c)
                                    } else {
                                        None
                                    }
                                } else {
                                    if 0xb2 <= c < 0xb4 {
                                        Some(c - 0xb2 + 0x32)
                                    } else {
                                        None
                                    }
                                }
                            } else {
                                if c < 0x127 {
                                    if c == 0xb9 {
                                        Some(0x31)
                                    } else {
                                        None
                                    }
                                } else {
                                    if c < 0x131 {
                                        if c == 0x127 {
                                            Some(0x127)
                                        } else {
                                            None
                                        }
                                    } else {
                                        if c == 0x131 {
                                            Some(0x131)
                                        } else {
                                            None
                                        }
                                    }
                                }
                            }
                        } else {
                            if c < 0x26a {
                                if c < 0x259 {
                                    if c == 0x237 {
                                        Some(0x237)
                                    } else {
                                        None
                                    }
                                } else {
                                    if c < 0x262 {
                                        if c == 0x259 {
                                            Some(0x259)
                                        } else {
                                            None
                                        }
                                    } else {
                                        if c == 0x262 {
                                            Some(0x47)
                                        } else {
                                            None
                                        }
                                    }
                                }
                            } else {
                                if c < 0x274 {
                                    if c == 0x26a {
                                        Some(0x49)
                                    } else {
                                        None
                                    }
                                } else {
                                    if c < 0x280 {
                                        if c == 0x274 {
                                            Some(0x4e)
                                        } else {
                                            None
                                        }
                                    } else {
                                        if c == 0x280 {
                                            Some(0x52)
                                        } else {
                                            None
                                        }
                                    }
                                }
                            }
                        }
                    } else {
                        if c < 0x2b3 {
                            if c < 0x29f {
                                if c < 0x299 {
                                    if c == 0x28f {
                                        Some(0x59)
                                    } else {
                                        None
                                    }
                                } else {
                                    if c < 0x29c {
                                        if c == 0x299 {
                                            Some(0x42)
                                        } else {
                                            None
                                        }
                                    } else {
                                        if c == 0x29c {
                                            Some(0x48)
                                        } else {
                                            None
                                        }
                                    }
                                }
                            } else {
                                if c < 0x2b0 {
                                    if c == 0x29f {
                                        Some(0x4c)
                                    } else {
                                        None
                                    }
                                } else {
                                    if c < 0x2b2 {
                                        if c == 0x2b0 {
                                            Some(0x68)
                                        } else {
                                            None
                                        }
                                    } else {
                                        if c == 0x2b2 {
                                            Some(0x6a)
                                        } else {
                                            None
                                        }
                                    }
                                }
                            }
                        } else {
                            if c < 0x2e1 {
                                if c < 0x2b7 {
                                    if c == 0x2b3 {
                                        Some(0x72)
                                    } else {
                                        None
                                    }
                                } else {
                                    if c < 0x2b8 {
                                        if c == 0x2b7 {
                                            Some(0x77)
                                        } else {
                                            None
                                        }
                                    } else {
                                        if c == 0x2b8 {
                                            Some(0x79)
                                        } else {
                                            None
                                        }
                                    }
                                }
                            } else {
                                if c < 0x2e2 {
                                    if c == 0x2e1 {
                                        Some(0x6c)
                                    } else {
                                        None
                                    }
                                } else {
                                    if c < 0x2e3 {
                                        if c == 0x2e2 {
                                            Some(0x73)
                                        } else {
                                            None
                                        }
                                    } else {
                                        if c == 0x2e3 {
                                            Some(0x78)
                                        } else {
                                            None
                                        }
                                    }
                                }
                            }
                        }
                    }
                } else {
                    if c < 0x5e2 {
                        if c < 0x3dc {
                            if c < 0x3b1 {
                                if c < 0x3a3 {
                                    if 0x391 <= c < 0x3a2 {
                                        Some(c)
                                    } else {
                                        None
                                    }
                                } else {
                                    if 0x3a3 <= c < 0x3aa {
                                        Some(c)
                                    } else {
                                        None
                                    }
                                }
                            } else {
                                if c < 0x3d1 {
                                    if 0x3b1 <= c < 0x3ca {
                                        Some(c)
                                    } else {
                                        None
                                    }
                                } else {
                                    if c < 0x3d5 {
                                        if c == 0x3d1 {
                                            Some(0x3d1)
                                        } else {
                                            None
                                        }
                                    } else {
                                        if 0x3d5 <= c < 0x3d7 {
                                            Some(c)
                                        } else {
                                            None
                                        }
                                    }
                                }
                            }
                        } else {
                            if c < 0x5d0 {
                                if c < 0x3f0 {
                                    if 0x3dc <= c < 0x3de {
                                        Some(c)
                                    } else {
                                        None
                                    }
                                } else {
                                    if c < 0x3f4 {
                                        if 0x3f0 <= c < 0x3f2 {
                                            Some(c)
                                        } else {
                                            None
                                        }
                                    } else {
                                        if 0x3f4 <= c < 0x3f6 {
                                            Some(c)
                                        } else {
                                            None
                                        }
                                    }
                                }
                            } else {
                                if c < 0x5d3 {
                                    if c == 0x5d0 {
                                        Some(0x5d0)
                                    } else {
                                        None
                                    }
                                } else {
                                    if c < 0x5db {
                                        if 0x5d3 <= c < 0x5d5 {
                                            Some(c)
                                        } else {
                                            None
                                        }
                                    } else {
                                        if 0x5db <= c < 0x5de {
                                            Some(c)
                                        } else {
                                            None
                                        }
                                    }
                                }
                            }
                        }
                    } else {
                        if c < 0x64a {
                            if c < 0x627 {
                                if c < 0x5e8 {
                                    if c == 0x5e2 {
                                        Some(0x5e2)
                                    } else {
                                        None
                                    }
                                } else {
                                    if c < 0x5ea {
                                        if c == 0x5e8 {
                                            Some(0x5e8)
                                        } else {
                                            None
                                        }
                                    } else {
                                        if c == 0x5ea {
                                            Some(0x5ea)
                                        } else {
                                            None
                                        }
                                    }
                                }
                            } else {
                                if c < 0x62a {
                                    if 0x627 <= c < 0x629 {
                                        Some(c)
                                    } else {
                                        None
                                    }
                                } else {
                                    if c < 0x641 {
                                        if 0x62a <= c < 0x63b {
                                            Some(c)
                                        } else {
                                            None
                                        }
                                    } else {
                                        if 0x641 <= c < 0x649 {
                                            Some(c)
                                        } else {
                                            None
                                        }
                                    }
                                }
                            }
                        } else {
                            if c < 0x6ba {
                                if c < 0x66e {
                                    if c == 0x64a {
                                        Some(0x64a)
                                    } else {
                                        None
                                    }
                                } else {
                                    if c < 0x6a1 {
                                        if 0x66e <= c < 0x670 {
                                            Some(c)
                                        } else {
                                            None
                                        }
                                    } else {
                                        if c == 0x6a1 {
                                            Some(0x6a1)
                                        } else {
                                            None
                                        }
                                    }
                                }
                            } else {
                                if c < 0x1d00 {
                                    if c == 0x6ba {
                                        Some(0x6ba)
                                    } else {
                                        None
                                    }
                                } else {
                                    if c < 0x1d04 {
                                        if c == 0x1d00 {
                                            Some(0x41)
                                        } else {
                                            None
                                        }
                                    } else {
                                        if 0x1d04 <= c < 0x1d06 {
                                            Some(c - 0x1d04 + 0x43)
                                        } else {
                                            None
                                        }
                                    }
                                }
                            }
                        }
                    }
                }
            } else {
                if c < 0x1d52 {
                    if c < 0x1d33 {
                        if c < 0x1d1b {
                            if c < 0x1d0d {
                                if c < 0x1d0a {
                                    if c == 0x1d07 {
                                        Some(0x45)
                                    } else {
                                        None
                                    }
                                } else {
                                    if 0x1d0a <= c < 0x1d0c {
                                        Some(c - 0x1d0a + 0x4a)
                                    } else {
                                        None
                                    }
                                }
                            } else {
                                if c < 0x1d0f {
                                    if c == 0x1d0d {
                                        Some(0x4d)
                                    } else {
                                        None
                                    }
                                } else {
                                    if c < 0x1d18 {
                                        if c == 0x1d0f {
                                            Some(0x4f)
                                        } else {
                                            None
                                        }
                                    } else {
                                        if c == 0x1d18 {
                                            Some(0x50)
                                        } else {
                                            None
                                        }
                                    }
                                }
                            }
                        } else {
                            if c < 0x1d2c {
                                if c < 0x1d20 {
                                    if 0x1d1b <= c < 0x1d1d {
                                        Some(c - 0x1d1b + 0x54)
                                    } else {
                                        None
                                    }
                                } else {
                                    if c < 0x1d22 {
                                        if 0x1d20 <= c < 0x1d22 {
                                            Some(c - 0x1d20 + 0x56)
                                        } else {
                                            None
                                        }
                                    } else {
                                        if c == 0x1d22 {
                                            Some(0x5a)
                                        } else {
                                            None
                                        }
                                    }
                                }
                            } else {
                                if c < 0x1d2e {
                                    if c == 0x1d2c {
                                        Some(0x41)
                                    } else {
                                        None
                                    }
                                } else {
                                    if c < 0x1d30 {
                                        if c == 0x1d2e {
                                            Some(0x42)
                                        } else {
                                            None
                                        }
                                    } else {
                                        if 0x1d30 <= c < 0x1d32 {
                                            Some(c - 0x1d30 + 0x44)
                                        } else {
                                            None
                                        }
                                    }
                                }
                            }
                        }
                    } else {
                        if c < 0x1d43 {
                            if c < 0x1d3f {
                                if c < 0x1d3c {
                                    if 0x1d33 <= c < 0x1d3b {
                                        Some(c - 0x1d33 + 0x47)
                                    } else {
                                        None
                                    }
                                } else {
                                    if c < 0x1d3e {
                                        if c == 0x1d3c {
                                            Some(0x4f)
                                        } else {
                                            None
                                        }
                                    } else {
                                        if c == 0x1d3e {
                                            Some(0x50)
                                        } else {
                                            None
                                        }
                                    }
                                }
                            } else {
                                if c < 0x1d40 {
                                    if c == 0x1d3f {
                                        Some(0x52)
                                    } else {
                                        None
                                    }
                                } else {
                                    if c < 0x1d42 {
                                        if 0x1d40 <= c < 0x1d42 {
                                            Some(c - 0x1d40 + 0x54)
                                        } else {
                                            None
                                        }
                                    } else {
                                        if c == 0x1d42 {
                                            Some(0x57)
                                        } else {
                                            None
                                        }
                                    }
                                }
                            }
                        } else {
                            if c < 0x1d4d {
                                if c < 0x1d47 {
                                    if c == 0x1d43 {
                                        Some(0x61)
                                    } else {
                                        None
                                    }
                                } else {
                                    if c < 0x1d48 {
                                        if c == 0x1d47 {
                                            Some(0x62)
                                        } else {
                                            None
                                        }
                                    } else {
                                        if 0x1d48 <= c < 0x1d4a {
                                            Some(c - 0x1d48 + 0x64)
                                        } else {
                                            None
                                        }
                                    }
                                }
                            } else {
                                if c < 0x1d4f {
                                    if c == 0x1d4d {
                                        Some(0x67)
                                    } else {
                                        None
                                    }
                                } else {
                                    if c < 0x1d50 {
                                        if c == 0x1d4f {
                                            Some(0x6b)
                                        } else {
                                            None
                                        }
                                    } else {
                                        if c == 0x1d50 {
                                            Some(0x6d)
                                        } else {
                                            None
                                        }
                                    }
                                }
                            }
                        }
                    }
                } else {
                    if c < 0x2074 {
                        if c < 0x1d64 {
                            if c < 0x1d5b {
                                if c < 0x1d56 {
                                    if c == 0x1d52 {
                                        Some(0x6f)
                                    } else {
                                        None
                                    }
                                } else {
                                    if c < 0x1d57 {
                                        if c == 0x1d56 {
                                            Some(0x70)
                                        } else {
                                            None
                                        }
                                    } else {
                                        if 0x1d57 <= c < 0x1d59 {
                                            Some(c - 0x1d57 + 0x74)
                                        } else {
                                            None
                                        }
                                    }
                                }
                            } else {
                                if c < 0x1d62 {
                                    if c == 0x1d5b {
                                        Some(0x76)
                                    } else {
                                        None
                                    }
                                } else {
                                    if c < 0x1d63 {
                                        if c == 0x1d62 {
                                            Some(0x69)
                                        } else {
                                            None
                                        }
                                    } else {
                                        if c == 0x1d63 {
                                            Some(0x72)
                                        } else {
                                            None
                                        }
                                    }
                                }
                            }
                        } else {
                            if c < 0x1dbb {
                                if c < 0x1d9c {
                                    if 0x1d64 <= c < 0x1d66 {
                                        Some(c - 0x1d64 + 0x75)
                                    } else {
                                        None
                                    }
                                } else {
                                    if c < 0x1da0 {
                                        if c == 0x1d9c {
                                            Some(0x63)
                                        } else {
                                            None
                                        }
                                    } else {
                                        if c == 0x1da0 {
                                            Some(0x66)
                                        } else {
                                            None
                                        }
                                    }
                                }
                            } else {
                                if c < 0x2070 {
                                    if c == 0x1dbb {
                                        Some(0x7a)
                                    } else {
                                        None
                                    }
                                } else {
                                    if c < 0x2071 {
                                        if c == 0x2070 {
                                            Some(0x30)
                                        } else {
                                            None
                                        }
                                    } else {
                                        if c == 0x2071 {
                                            Some(0x69)
                                        } else {
                                            None
                                        }
                                    }
                                }
                            }
                        }
                    } else {
                        if c < 0x2080 {
                            if c < 0x207c {
                                if c < 0x207a {
                                    if 0x2074 <= c < 0x207a {
                                        Some(c - 0x2074 + 0x34)
                                    } else {
                                        None
                                    }
                                } else {
                                    if c < 0x207b {
                                        if c == 0x207a {
                                            Some(0x2b)
                                        } else {
                                            None
                                        }
                                    } else {
                                        if c == 0x207b {
                                            Some(0x2212)
                                        } else {
                                            None
                                        }
                                    }
                                }
                            } else {
                                if c < 0x207d {
                                    if c == 0x207c {
                                        Some(0x3d)
                                    } else {
                                        None
                                    }
                                } else {
                                    if c < 0x207f {
                                        if 0x207d <= c < 0x207f {
                                            Some(c - 0x207d + 0x28)
                                        } else {
                                            None
                                        }
                                    } else {
                                        if c == 0x207f {
                                            Some(0x6e)
                                        } else {
                                            None
                                        }
                                    }
                                }
                            }
                        } else {
                            if c < 0x208c {
                                if c < 0x208a {
                                    if 0x2080 <= c < 0x208a {
                                        Some(c - 0x2080 + 0x30)
                                    } else {
                                        None
                                    }
                                } else {
                                    if c < 0x208b {
                                        if c == 0x208a {
                                            Some(0x2b)
                                        } else {
                                            None
                                        }
                                    } else {
                                        if c == 0x208b {
                                            Some(0x2212)
                                        } else {
                                            None
                                        }
                                    }
                                }
                            } else {
                                if c < 0x208d {
                                    if c == 0x208c {
                                        Some(0x3d)
                                    } else {
                                        None
                                    }
                                } else {
                                    if c < 0x2090 {
                                        if 0x208d <= c < 0x208f {
                                            Some(c - 0x208d + 0x28)
                                        } else {
                                            None
                                        }
                                    } else {
                                        if c == 0x2090 {
                                            Some(0x61)
                                        } else {
                                            None
                                        }
                                    }
                                }
                            }
                        }
                    }
                }
            }
        } else {
            if c < 0x24d0 {
                if c < 0x2124 {
                    if c < 0x210c {
                        if c < 0x2096 {
                            if c < 0x2093 {
                                if c < 0x2092 {
                                    if c == 0x2091 {
                                        Some(0x65)
                                    } else {
                                        None
                                    }
                                } else {
                                    if c == 0x2092 {
                                        Some(0x6f)
                                    } else {
                                        None
                                    }
                                }
                            } else {
                                if c < 0x2094 {
                                    if c == 0x2093 {
                                        Some(0x78)
                                    } else {
                                        None
                                    }
                                } else {
                                    if c < 0x2095 {
                                        if c == 0x2094 {
                                            Some(0x259)
                                        } else {
                                            None
                                        }
                                    } else {
                                        if c == 0x2095 {
                                            Some(0x68)
                                        } else {
                                            None
                                        }
                                    }
                                }
                            }
                        } else {
                            if c < 0x2102 {
                                if c < 0x209a {
                                    if 0x2096 <= c < 0x209a {
                                        Some(c - 0x2096 + 0x6b)
                                    } else {
                                        None
                                    }
                                } else {
                                    if c < 0x209b {
                                        if c == 0x209a {
                                            Some(0x70)
                                        } else {
                                            None
                                        }
                                    } else {
                                        if 0x209b <= c < 0x209d {
                                            Some(c - 0x209b + 0x73)
                                        } else {
                                            None
                                        }
                                    }
                                }
                            } else {
                                if c < 0x210a {
                                    if c == 0x2102 {
                                        Some(0x43)
                                    } else {
                                        None
                                    }
                                } else {
                                    if c < 0x210b {
                                        if c == 0x210a {
                                            Some(0x67)
                                        } else {
                                            None
                                        }
                                    } else {
                                        if c == 0x210b {
                                            Some(0x48)
                                        } else {
                                            None
                                        }
                                    }
                                }
                            }
                        }
                    } else {
                        if c < 0x2112 {
                            if c < 0x210f {
                                if c < 0x210d {
                                    if c == 0x210c {
                                        Some(0x48)
                                    } else {
                                        None
                                    }
                                } else {
                                    if c < 0x210e {
                                        if c == 0x210d {
                                            Some(0x48)
                                        } else {
                                            None
                                        }
                                    } else {
                                        if c == 0x210e {
                                            Some(0x68)
                                        } else {
                                            None
                                        }
                                    }
                                }
                            } else {
                                if c < 0x2110 {
                                    if c == 0x210f {
                                        Some(0x127)
                                    } else {
                                        None
                                    }
                                } else {
                                    if c < 0x2111 {
                                        if c == 0x2110 {
                                            Some(0x49)
                                        } else {
                                            None
                                        }
                                    } else {
                                        if c == 0x2111 {
                                            Some(0x49)
                                        } else {
                                            None
                                        }
                                    }
                                }
                            }
                        } else {
                            if c < 0x2119 {
                                if c < 0x2113 {
                                    if c == 0x2112 {
                                        Some(0x4c)
                                    } else {
                                        None
                                    }
                                } else {
                                    if c < 0x2115 {
                                        if c == 0x2113 {
                                            Some(0x6c)
                                        } else {
                                            None
                                        }
                                    } else {
                                        if c == 0x2115 {
                                            Some(0x4e)
                                        } else {
                                            None
                                        }
                                    }
                                }
                            } else {
                                if c < 0x211c {
                                    if 0x2119 <= c < 0x211c {
                                        Some(c - 0x2119 + 0x50)
                                    } else {
                                        None
                                    }
                                } else {
                                    if c < 0x211d {
                                        if c == 0x211c {
                                            Some(0x52)
                                        } else {
                                            None
                                        }
                                    } else {
                                        if c == 0x211d {
                                            Some(0x52)
                                        } else {
                                            None
                                        }
                                    }
                                }
                            }
                        }
                    }
                } else {
                    if c < 0x2140 {
                        if c < 0x2134 {
                            if c < 0x212f {
                                if c < 0x2128 {
                                    if c == 0x2124 {
                                        Some(0x5a)
                                    } else {
                                        None
                                    }
                                } else {
                                    if c < 0x212c {
                                        if c == 0x2128 {
                                            Some(0x5a)
                                        } else {
                                            None
                                        }
                                    } else {
                                        if 0x212c <= c < 0x212e {
                                            Some(c - 0x212c + 0x42)
                                        } else {
                                            None
                                        }
                                    }
                                }
                            } else {
                                if c < 0x2130 {
                                    if c == 0x212f {
                                        Some(0x65)
                                    } else {
                                        None
                                    }
                                } else {
                                    if c < 0x2133 {
                                        if 0x2130 <= c < 0x2132 {
                                            Some(c - 0x2130 + 0x45)
                                        } else {
                                            None
                                        }
                                    } else {
                                        if c == 0x2133 {
                                            Some(0x4d)
                                        } else {
                                            None
                                        }
                                    }
                                }
                            }
                        } else {
                            if c < 0x213d {
                                if c < 0x2139 {
                                    if c == 0x2134 {
                                        Some(0x6f)
                                    } else {
                                        None
                                    }
                                } else {
                                    if c < 0x213c {
                                        if c == 0x2139 {
                                            Some(0x69)
                                        } else {
                                            None
                                        }
                                    } else {
                                        if c == 0x213c {
                                            Some(0x3c0)
                                        } else {
                                            None
                                        }
                                    }
                                }
                            } else {
                                if c < 0x213e {
                                    if c == 0x213d {
                                        Some(0x3b3)
                                    } else {
                                        None
                                    }
                                } else {
                                    if c < 0x213f {
                                        if c == 0x213e {
                                            Some(0x393)
                                        } else {
                                            None
                                        }
                                    } else {
                                        if c == 0x213f {
                                            Some(0x3a0)
                                        } else {
                                            None
                                        }
                                    }
                                }
                            }
                        }
                    } else {
                        if c < 0x2211 {
                            if c < 0x2148 {
                                if c < 0x2145 {
                                    if c == 0x2140 {
                                        Some(0x2211)
                                    } else {
                                        None
                                    }
                                } else {
                                    if c < 0x2146 {
                                        if c == 0x2145 {
                                            Some(0x44)
                                        } else {
                                            None
                                        }
                                    } else {
                                        if 0x2146 <= c < 0x2148 {
                                            Some(c - 0x2146 + 0x64)
                                        } else {
                                            None
                                        }
                                    }
                                }
                            } else {
                                if c < 0x2202 {
                                    if 0x2148 <= c < 0x214a {
                                        Some(c - 0x2148 + 0x69)
                                    } else {
                                        None
                                    }
                                } else {
                                    if c < 0x2207 {
                                        if c == 0x2202 {
                                            Some(0x2202)
                                        } else {
                                            None
                                        }
                                    } else {
                                        if c == 0x2207 {
                                            Some(0x2207)
                                        } else {
                                            None
                                        }
                                    }
                                }
                            }
                        } else {
                            if c < 0x2488 {
                                if c < 0x2460 {
                                    if 0x2211 <= c < 0x2213 {
                                        Some(c)
                                    } else {
                                        None
                                    }
                                } else {
                                    if c < 0x2474 {
                                        if 0x2460 <= c < 0x2469 {
                                            Some(c - 0x2460 + 0x31)
                                        } else {
                                            None
                                        }
                                    } else {
                                        if 0x2474 <= c < 0x247d {
                                            Some(c - 0x2474 + 0x31)
                                        } else {
                                            None
                                        }
                                    }
                                }
                            } else {
                                if c < 0x249c {
                                    if 0x2488 <= c < 0x2491 {
                                        Some(c - 0x2488 + 0x31)
                                    } else {
                                        None
                                    }
                                } else {
                                    if c < 0x24b6 {
                                        if 0x249c <= c < 0x24b6 {
                                            Some(c - 0x249c + 0x61)
                                        } else {
                                            None
                                        }
                                    } else {
                                        if 0x24b6 <= c < 0x24d0 {
                                            Some(c - 0x24b6 + 0x41)
                                        } else {
                                            None
                                        }
                                    }
                                }
                            }
                        }
                    }
                }
            } else {
                if c < 0x1d49c {
                    if c < 0xfb24 {
                        if c < 0xa730 {
                            if c < 0x24ff {
                                if c < 0x24ea {
                                    if 0x24d0 <= c < 0x24ea {
                                        Some(c - 0x24d0 + 0x61)
                                    } else {
                                        None
                                    }
                                } else {
                                    if c == 0x24ea {
                                        Some(0x30)
                                    } else {
                                        None
                                    }
                                }
                            } else {
                                if c < 0x2776 {
                                    if c == 0x24ff {
                                        Some(0x30)
                                    } else {
                                        None
                                    }
                                } else {
                                    if c < 0x2c7c {
                                        if 0x2776 <= c < 0x277f {
                                            Some(c - 0x2776 + 0x31)
                                        } else {
                                            None
                                        }
                                    } else {
                                        if c == 0x2c7c {
                                            Some(0x6a)
                                        } else {
                                            None
                                        }
                                    }
                                }
                            }
                        } else {
                            if c < 0xfb20 {
                                if c < 0xa731 {
                                    if c == 0xa730 {
                                        Some(0x46)
                                    } else {
                                        None
                                    }
                                } else {
                                    if c < 0xa7af {
                                        if c == 0xa731 {
                                            Some(0x53)
                                        } else {
                                            None
                                        }
                                    } else {
                                        if c == 0xa7af {
                                            Some(0x51)
                                        } else {
                                            None
                                        }
                                    }
                                }
                            } else {
                                if c < 0xfb21 {
                                    if c == 0xfb20 {
                                        Some(0x5e2)
                                    } else {
                                        None
                                    }
                                } else {
                                    if c < 0xfb22 {
                                        if c == 0xfb21 {
                                            Some(0x5d0)
                                        } else {
                                            None
                                        }
                                    } else {
                                        if 0xfb22 <= c < 0xfb24 {
                                            Some(c - 0xfb22 + 0x5d3)
                                        } else {
                                            None
                                        }
                                    }
                                }
                            }
                        }
                    } else {
                        if c < 0x1d41a {
                            if c < 0xfb29 {
                                if c < 0xfb27 {
                                    if 0xfb24 <= c < 0xfb27 {
                                        Some(c - 0xfb24 + 0x5db)
                                    } else {
                                        None
                                    }
                                } else {
                                    if c < 0xfb28 {
                                        if c == 0xfb27 {
                                            Some(0x5e8)
                                        } else {
                                            None
                                        }
                                    } else {
                                        if c == 0xfb28 {
                                            Some(0x5ea)
                                        } else {
                                            None
                                        }
                                    }
                                }
                            } else {
                                if c < 0xff01 {
                                    if c == 0xfb29 {
                                        Some(0x2b)
                                    } else {
                                        None
                                    }
                                } else {
                                    if c < 0x1d400 {
                                        if 0xff01 <= c < 0xff5f {
                                            Some(c - 0xff01 + 0x21)
                                        } else {
                                            None
                                        }
                                    } else {
                                        if 0x1d400 <= c < 0x1d41a {
                                            Some(c - 0x1d400 + 0x41)
                                        } else {
                                            None
                                        }
                                    }
                                }
                            }
                        } else {
                            if c < 0x1d456 {
                                if c < 0x1d434 {
                                    if 0x1d41a <= c < 0x1d434 {
                                        Some(c - 0x1d41a + 0x61)
                                    } else {
                                        None
                                    }
                                } else {
                                    if c < 0x1d44e {
                                        if 0x1d434 <= c < 0x1d44e {
                                            Some(c - 0x1d434 + 0x41)
                                        } else {
                                            None
                                        }
                                    } else {
                                        if 0x1d44e <= c < 0x1d455 {
                                            Some(c - 0x1d44e + 0x61)
                                        } else {
                                            None
                                        }
                                    }
                                }
                            } else {
                                if c < 0x1d468 {
                                    if 0x1d456 <= c < 0x1d468 {
                                        Some(c - 0x1d456 + 0x69)
                                    } else {
                                        None
                                    }
                                } else {
                                    if c < 0x1d482 {
                                        if 0x1d468 <= c < 0x1d482 {
                                            Some(c - 0x1d468 + 0x41)
                                        } else {
                                            None
                                        }
                                    } else {
                                        if 0x1d482 <= c < 0x1d49c {
                                            Some(c - 0x1d482 + 0x61)
                                        } else {
                                            None
                                        }
                                    }
                                }
                            }
                        }
                    }
                } else {
                    if c < 0x1d504 {
                        if c < 0x1d4b6 {
                            if c < 0x1d4a5 {
                                if c < 0x1d49e {
                                    if c == 0x1d49c {
                                        Some(0x41)
                                    } else {
                                        None
                                    }
                                } else {
                                    if c < 0x1d4a2 {
                                        if 0x1d49e <= c < 0x1d4a0 {
                                            Some(c - 0x1d49e + 0x43)
                                        } else {
                                            None
                                        }
                                    } else {
                                        if c == 0x1d4a2 {
                                            Some(0x47)
                                        } else {
                                            None
                                        }
                                    }
                                }
                            } else {
                                if c < 0x1d4a9 {
                                    if 0x1d4a5 <= c < 0x1d4a7 {
                                        Some(c - 0x1d4a5 + 0x4a)
                                    } else {
                                        None
                                    }
                                } else {
                                    if c < 0x1d4ae {
                                        if 0x1d4a9 <= c < 0x1d4ad {
                                            Some(c - 0x1d4a9 + 0x4e)
                                        } else {
                                            None
                                        }
                                    } else {
                                        if 0x1d4ae <= c < 0x1d4b6 {
                                            Some(c - 0x1d4ae + 0x53)
                                        } else {
                                            None
                                        }
                                    }
                                }
                            }
                        } else {
                            if c < 0x1d4c5 {
                                if c < 0x1d4bb {
                                    if 0x1d4b6 <= c < 0x1d4ba {
                                        Some(c - 0x1d4b6 + 0x61)
                                    } else {
                                        None
                                    }
                                } else {
                                    if c < 0x1d4bd {
                                        if c == 0x1d4bb {
                                            Some(0x66)
                                        } else {
                                            None
                                        }
                                    } else {
                                        if 0x1d4bd <= c < 0x1d4c4 {
                                            Some(c - 0x1d4bd + 0x68)
                                        } else {
                                            None
                                        }
                                    }
                                }
                            } else {
                                if c < 0x1d4d0 {
                                    if 0x1d4c5 <= c < 0x1d4d0 {
                                        Some(c - 0x1d4c5 + 0x70)
                                    } else {
                                        None
                                    }
                                } else {
                                    if c < 0x1d4ea {
                                        if 0x1d4d0 <= c < 0x1d4ea {
                                            Some(c - 0x1d4d0 + 0x41)
                                        } else {
                                            None
                                        }
                                    } else {
                                        if 0x1d4ea <= c < 0x1d504 {
                                            Some(c - 0x1d4ea + 0x61)
                                        } else {
                                            None
                                        }
                                    }
                                }
                            }
                        }
                    } else {
                        if c < 0x1d53b {
                            if c < 0x1d516 {
                                if c < 0x1d507 {
                                    if 0x1d504 <= c < 0x1d506 {
                                        Some(c - 0x1d504 + 0x41)
                                    } else {
                                        None
                                    }
                                } else {
                                    if c < 0x1d50d {
                                        if 0x1d507 <= c < 0x1d50b {
                                            Some(c - 0x1d507 + 0x44)
                                        } else {
                                            None
                                        }
                                    } else {
                                        if 0x1d50d <= c < 0x1d515 {
                                            Some(c - 0x1d50d + 0x4a)
                                        } else {
                                            None
                                        }
                                    }
                                }
                            } else {
                                if c < 0x1d51e {
                                    if 0x1d516 <= c < 0x1d51d {
                                        Some(c - 0x1d516 + 0x53)
                                    } else {
                                        None
                                    }
                                } else {
                                    if c < 0x1d538 {
                                        if 0x1d51e <= c < 0x1d538 {
                                            Some(c - 0x1d51e + 0x61)
                                        } else {
                                            None
                                        }
                                    } else {
                                        if 0x1d538 <= c < 0x1d53a {
                                            Some(c - 0x1d538 + 0x41)
                                        } else {
                                            None
                                        }
                                    }
                                }
                            }
                        } else {
                            if c < 0x1d54a {
                                if c < 0x1d540 {
                                    if 0x1d53b <= c < 0x1d53f {
                                        Some(c - 0x1d53b + 0x44)
                                    } else {
                                        None
                                    }
                                } else {
                                    if c < 0x1d546 {
                                        if 0x1d540 <= c < 0x1d545 {
                                            Some(c - 0x1d540 + 0x49)
                                        } else {
                                            None
                                        }
                                    } else {
                                        if c == 0x1d546 {
                                            Some(0x4f)
                                        } else {
                                            None
                                        }
                                    }
                                }
                            } else {
                                if c < 0x1d552 {
                                    if 0x1d54a <= c < 0x1d551 {
                                        Some(c - 0x1d54a + 0x53)
                                    } else {
                                        None
                                    }
                                } else {
                                    if c < 0x1d56c {
                                        if 0x1d552 <= c < 0x1d56c {
                                            Some(c - 0x1d552 + 0x61)
                                        } else {
                                            None
                                        }
                                    } else {
                                        if 0x1d56c <= c < 0x1d586 {
                                            Some(c - 0x1d56c + 0x41)
                                        } else {
                                            None
                                        }
                                    }
                                }
                            }
                        }
                    }
                }
            }
        }
    } else {
        if c < 0x1ee13 {
            if c < 0x1d753 {
                if c < 0x1d6e0 {
                    if c < 0x1d6a4 {
                        if c < 0x1d608 {
                            if c < 0x1d5ba {
                                if c < 0x1d5a0 {
                                    if 0x1d586 <= c < 0x1d5a0 {
                                        Some(c - 0x1d586 + 0x61)
                                    } else {
                                        None
                                    }
                                } else {
                                    if 0x1d5a0 <= c < 0x1d5ba {
                                        Some(c - 0x1d5a0 + 0x41)
                                    } else {
                                        None
                                    }
                                }
                            } else {
                                if c < 0x1d5d4 {
                                    if 0x1d5ba <= c < 0x1d5d4 {
                                        Some(c - 0x1d5ba + 0x61)
                                    } else {
                                        None
                                    }
                                } else {
                                    if c < 0x1d5ee {
                                        if 0x1d5d4 <= c < 0x1d5ee {
                                            Some(c - 0x1d5d4 + 0x41)
                                        } else {
                                            None
                                        }
                                    } else {
                                        if 0x1d5ee <= c < 0x1d608 {
                                            Some(c - 0x1d5ee + 0x61)
                                        } else {
                                            None
                                        }
                                    }
                                }
                            }
                        } else {
                            if c < 0x1d656 {
                                if c < 0x1d622 {
                                    if 0x1d608 <= c < 0x1d622 {
                                        Some(c - 0x1d608 + 0x41)
                                    } else {
                                        None
                                    }
                                } else {
                                    if c < 0x1d63c {
                                        if 0x1d622 <= c < 0x1d63c {
                                            Some(c - 0x1d622 + 0x61)
                                        } else {
                                            None
                                        }
                                    } else {
                                        if 0x1d63c <= c < 0x1d656 {
                                            Some(c - 0x1d63c + 0x41)
                                        } else {
                                            None
                                        }
                                    }
                                }
                            } else {
                                if c < 0x1d670 {
                                    if 0x1d656 <= c < 0x1d670 {
                                        Some(c - 0x1d656 + 0x61)
                                    } else {
                                        None
                                    }
                                } else {
                                    if c < 0x1d68a {
                                        if 0x1d670 <= c < 0x1d68a {
                                            Some(c - 0x1d670 + 0x41)
                                        } else {
                                            None
                                        }
                                    } else {
                                        if 0x1d68a <= c < 0x1d6a4 {
                                            Some(c - 0x1d68a + 0x61)
                                        } else {
                                            None
                                        }
                                    }
                                }
                            }
                        }
                    } else {
                        if c < 0x1d6c2 {
                            if c < 0x1d6b9 {
                                if c < 0x1d6a5 {
                                    if c == 0x1d6a4 {
                                        Some(0x131)
                                    } else {
                                        None
                                    }
                                } else {
                                    if c < 0x1d6a8 {
                                        if c == 0x1d6a5 {
                                            Some(0x237)
                                        } else {
                                            None
                                        }
                                    } else {
                                        if 0x1d6a8 <= c < 0x1d6b9 {
                                            Some(c - 0x1d6a8 + 0x391)
                                        } else {
                                            None
                                        }
                                    }
                                }
                            } else {
                                if c < 0x1d6ba {
                                    if c == 0x1d6b9 {
                                        Some(0x3f4)
                                    } else {
                                        None
                                    }
                                } else {
                                    if c < 0x1d6c1 {
                                        if 0x1d6ba <= c < 0x1d6c1 {
                                            Some(c - 0x1d6ba + 0x3a3)
                                        } else {
                                            None
                                        }
                                    } else {
                                        if c == 0x1d6c1 {
                                            Some(0x2207)
                                        } else {
                                            None
                                        }
                                    }
                                }
                            }
                        } else {
                            if c < 0x1d6dd {
                                if c < 0x1d6db {
                                    if 0x1d6c2 <= c < 0x1d6db {
                                        Some(c - 0x1d6c2 + 0x3b1)
                                    } else {
                                        None
                                    }
                                } else {
                                    if c < 0x1d6dc {
                                        if c == 0x1d6db {
                                            Some(0x2202)
                                        } else {
                                            None
                                        }
                                    } else {
                                        if c == 0x1d6dc {
                                            Some(0x3f5)
                                        } else {
                                            None
                                        }
                                    }
                                }
                            } else {
                                if c < 0x1d6de {
                                    if c == 0x1d6dd {
                                        Some(0x3d1)
                                    } else {
                                        None
                                    }
                                } else {
                                    if c < 0x1d6df {
                                        if c == 0x1d6de {
                                            Some(0x3f0)
                                        } else {
                                            None
                                        }
                                    } else {
                                        if c == 0x1d6df {
                                            Some(0x3d5)
                                        } else {
                                            None
                                        }
                                    }
                                }
                            }
                        }
                    }
                } else {
                    if c < 0x1d719 {
                        if c < 0x1d6fb {
                            if c < 0x1d6e2 {
                                if c < 0x1d6e1 {
                                    if c == 0x1d6e0 {
                                        Some(0x3f1)
                                    } else {
                                        None
                                    }
                                } else {
                                    if c == 0x1d6e1 {
                                        Some(0x3d6)
                                    } else {
                                        None
                                    }
                                }
                            } else {
                                if c < 0x1d6f3 {
                                    if 0x1d6e2 <= c < 0x1d6f3 {
                                        Some(c - 0x1d6e2 + 0x391)
                                    } else {
                                        None
                                    }
                                } else {
                                    if c < 0x1d6f4 {
                                        if c == 0x1d6f3 {
                                            Some(0x3f4)
                                        } else {
                                            None
                                        }
                                    } else {
                                        if 0x1d6f4 <= c < 0x1d6fb {
                                            Some(c - 0x1d6f4 + 0x3a3)
                                        } else {
                                            None
                                        }
                                    }
                                }
                            }
                        } else {
                            if c < 0x1d716 {
                                if c < 0x1d6fc {
                                    if c == 0x1d6fb {
                                        Some(0x2207)
                                    } else {
                                        None
                                    }
                                } else {
                                    if c < 0x1d715 {
                                        if 0x1d6fc <= c < 0x1d715 {
                                            Some(c - 0x1d6fc + 0x3b1)
                                        } else {
                                            None
                                        }
                                    } else {
                                        if c == 0x1d715 {
                                            Some(0x2202)
                                        } else {
                                            None
                                        }
                                    }
                                }
                            } else {
                                if c < 0x1d717 {
                                    if c == 0x1d716 {
                                        Some(0x3f5)
                                    } else {
                                        None
                                    }
                                } else {
                                    if c < 0x1d718 {
                                        if c == 0x1d717 {
                                            Some(0x3d1)
                                        } else {
                                            None
                                        }
                                    } else {
                                        if c == 0x1d718 {
                                            Some(0x3f0)
                                        } else {
                                            None
                                        }
                                    }
                                }
                            }
                        }
                    } else {
                        if c < 0x1d735 {
                            if c < 0x1d71c {
                                if c < 0x1d71a {
                                    if c == 0x1d719 {
                                        Some(0x3d5)
                                    } else {
                                        None
                                    }
                                } else {
                                    if c < 0x1d71b {
                                        if c == 0x1d71a {
                                            Some(0x3f1)
                                        } else {
                                            None
                                        }
                                    } else {
                                        if c == 0x1d71b {
                                            Some(0x3d6)
                                        } else {
                                            None
                                        }
                                    }
                                }
                            } else {
                                if c < 0x1d72d {
                                    if 0x1d71c <= c < 0x1d72d {
                                        Some(c - 0x1d71c + 0x391)
                                    } else {
                                        None
                                    }
                                } else {
                                    if c < 0x1d72e {
                                        if c == 0x1d72d {
                                            Some(0x3f4)
                                        } else {
                                            None
                                        }
                                    } else {
                                        if 0x1d72e <= c < 0x1d735 {
                                            Some(c - 0x1d72e + 0x3a3)
                                        } else {
                                            None
                                        }
                                    }
                                }
                            }
                        } else {
                            if c < 0x1d750 {
                                if c < 0x1d736 {
                                    if c == 0x1d735 {
                                        Some(0x2207)
                                    } else {
                                        None
                                    }
                                } else {
                                    if c < 0x1d74f {
                                        if 0x1d736 <= c < 0x1d74f {
                                            Some(c - 0x1d736 + 0x3b1)
                                        } else {
                                            None
                                        }
                                    } else {
                                        if c == 0x1d74f {
                                            Some(0x2202)
                                        } else {
                                            None
                                        }
                                    }
                                }
                            } else {
                                if c < 0x1d751 {
                                    if c == 0x1d750 {
                                        Some(0x3f5)
                                    } else {
                                        None
                                    }
                                } else {
                                    if c < 0x1d752 {
                                        if c == 0x1d751 {
                                            Some(0x3d1)
                                        } else {
                                            None
                                        }
                                    } else {
                                        if c == 0x1d752 {
                                            Some(0x3f0)
                                        } else {
                                            None
                                        }
                                    }
                                }
                            }
                        }
                    }
                }
            } else {
                if c < 0x1d7c6 {
                    if c < 0x1d78c {
                        if c < 0x1d768 {
                            if c < 0x1d755 {
                                if c < 0x1d754 {
                                    if c == 0x1d753 {
                                        Some(0x3d5)
                                    } else {
                                        None
                                    }
                                } else {
                                    if c == 0x1d754 {
                                        Some(0x3f1)
                                    } else {
                                        None
                                    }
                                }
                            } else {
                                if c < 0x1d756 {
                                    if c == 0x1d755 {
                                        Some(0x3d6)
                                    } else {
                                        None
                                    }
                                } else {
                                    if c < 0x1d767 {
                                        if 0x1d756 <= c < 0x1d767 {
                                            Some(c - 0x1d756 + 0x391)
                                        } else {
                                            None
                                        }
                                    } else {
                                        if c == 0x1d767 {
                                            Some(0x3f4)
                                        } else {
                                            None
                                        }
                                    }
                                }
                            }
                        } else {
                            if c < 0x1d789 {
                                if c < 0x1d76f {
                                    if 0x1d768 <= c < 0x1d76f {
                                        Some(c - 0x1d768 + 0x3a3)
                                    } else {
                                        None
                                    }
                                } else {
                                    if c < 0x1d770 {
                                        if c == 0x1d76f {
                                            Some(0x2207)
                                        } else {
                                            None
                                        }
                                    } else {
                                        if 0x1d770 <= c < 0x1d789 {
                                            Some(c - 0x1d770 + 0x3b1)
                                        } else {
                                            None
                                        }
                                    }
                                }
                            } else {
                                if c < 0x1d78a {
                                    if c == 0x1d789 {
                                        Some(0x2202)
                                    } else {
                                        None
                                    }
                                } else {
                                    if c < 0x1d78b {
                                        if c == 0x1d78a {
                                            Some(0x3f5)
                                        } else {
                                            None
                                        }
                                    } else {
                                        if c == 0x1d78b {
                                            Some(0x3d1)
                                        } else {
                                            None
                                        }
                                    }
                                }
                            }
                        }
                    } else {
                        if c < 0x1d7a2 {
                            if c < 0x1d78f {
                                if c < 0x1d78d {
                                    if c == 0x1d78c {
                                        Some(0x3f0)
                                    } else {
                                        None
                                    }
                                } else {
                                    if c < 0x1d78e {
                                        if c == 0x1d78d {
                                            Some(0x3d5)
                                        } else {
                                            None
                                        }
                                    } else {
                                        if c == 0x1d78e {
                                            Some(0x3f1)
                                        } else {
                                            None
                                        }
                                    }
                                }
                            } else {
                                if c < 0x1d790 {
                                    if c == 0x1d78f {
                                        Some(0x3d6)
                                    } else {
                                        None
                                    }
                                } else {
                                    if c < 0x1d7a1 {
                                        if 0x1d790 <= c < 0x1d7a1 {
                                            Some(c - 0x1d790 + 0x391)
                                        } else {
                                            None
                                        }
                                    } else {
                                        if c == 0x1d7a1 {
                                            Some(0x3f4)
                                        } else {
                                            None
                                        }
                                    }
                                }
                            }
                        } else {
                            if c < 0x1d7c3 {
                                if c < 0x1d7a9 {
                                    if 0x1d7a2 <= c < 0x1d7a9 {
                                        Some(c - 0x1d7a2 + 0x3a3)
                                    } else {
                                        None
                                    }
                                } else {
                                    if c < 0x1d7aa {
                                        if c == 0x1d7a9 {
                                            Some(0x2207)
                                        } else {
                                            None
                                        }
                                    } else {
                                        if 0x1d7aa <= c < 0x1d7c3 {
                                            Some(c - 0x1d7aa + 0x3b1)
                                        } else {
                                            None
                                        }
                                    }
                                }
                            } else {
                                if c < 0x1d7c4 {
                                    if c == 0x1d7c3 {
                                        Some(0x2202)
                                    } else {
                                        None
                                    }
                                } else {
                                    if c < 0x1d7c5 {
                                        if c == 0x1d7c4 {
                                            Some(0x3f5)
                                        } else {
                                            None
                                        }
                                    } else {
                                        if c == 0x1d7c5 {
                                            Some(0x3d1)
                                        } else {
                                            None
                                        }
                                    }
                                }
                            }
                        }
                    }
                } else {
                    if c < 0x1ee03 {
                        if c < 0x1d7d8 {
                            if c < 0x1d7c9 {
                                if c < 0x1d7c7 {
                                    if c == 0x1d7c6 {
                                        Some(0x3f0)
                                    } else {
                                        None
                                    }
                                } else {
                                    if c < 0x1d7c8 {
                                        if c == 0x1d7c7 {
                                            Some(0x3d5)
                                        } else {
                                            None
                                        }
                                    } else {
                                        if c == 0x1d7c8 {
                                            Some(0x3f1)
                                        } else {
                                            None
                                        }
                                    }
                                }
                            } else {
                                if c < 0x1d7ca {
                                    if c == 0x1d7c9 {
                                        Some(0x3d6)
                                    } else {
                                        None
                                    }
                                } else {
                                    if c < 0x1d7ce {
                                        if 0x1d7ca <= c < 0x1d7cc {
                                            Some(c - 0x1d7ca + 0x3dc)
                                        } else {
                                            None
                                        }
                                    } else {
                                        if 0x1d7ce <= c < 0x1d7d8 {
                                            Some(c - 0x1d7ce + 0x30)
                                        } else {
                                            None
                                        }
                                    }
                                }
                            }
                        } else {
                            if c < 0x1d7f6 {
                                if c < 0x1d7e2 {
                                    if 0x1d7d8 <= c < 0x1d7e2 {
                                        Some(c - 0x1d7d8 + 0x30)
                                    } else {
                                        None
                                    }
                                } else {
                                    if c < 0x1d7ec {
                                        if 0x1d7e2 <= c < 0x1d7ec {
                                            Some(c - 0x1d7e2 + 0x30)
                                        } else {
                                            None
                                        }
                                    } else {
                                        if 0x1d7ec <= c < 0x1d7f6 {
                                            Some(c - 0x1d7ec + 0x30)
                                        } else {
                                            None
                                        }
                                    }
                                }
                            } else {
                                if c < 0x1ee00 {
                                    if 0x1d7f6 <= c < 0x1d800 {
                                        Some(c - 0x1d7f6 + 0x30)
                                    } else {
                                        None
                                    }
                                } else {
                                    if c < 0x1ee02 {
                                        if 0x1ee00 <= c < 0x1ee02 {
                                            Some(c - 0x1ee00 + 0x627)
                                        } else {
                                            None
                                        }
                                    } else {
                                        if c == 0x1ee02 {
                                            Some(0x62c)
                                        } else {
                                            None
                                        }
                                    }
                                }
                            }
                        }
                    } else {
                        if c < 0x1ee0a {
                            if c < 0x1ee07 {
                                if c < 0x1ee05 {
                                    if c == 0x1ee03 {
                                        Some(0x62f)
                                    } else {
                                        None
                                    }
                                } else {
                                    if c < 0x1ee06 {
                                        if c == 0x1ee05 {
                                            Some(0x648)
                                        } else {
                                            None
                                        }
                                    } else {
                                        if c == 0x1ee06 {
                                            Some(0x632)
                                        } else {
                                            None
                                        }
                                    }
                                }
                            } else {
                                if c < 0x1ee08 {
                                    if c == 0x1ee07 {
                                        Some(0x62d)
                                    } else {
                                        None
                                    }
                                } else {
                                    if c < 0x1ee09 {
                                        if c == 0x1ee08 {
                                            Some(0x637)
                                        } else {
                                            None
                                        }
                                    } else {
                                        if c == 0x1ee09 {
                                            Some(0x64a)
                                        } else {
                                            None
                                        }
                                    }
                                }
                            }
                        } else {
                            if c < 0x1ee10 {
                                if c < 0x1ee0e {
                                    if 0x1ee0a <= c < 0x1ee0e {
                                        Some(c - 0x1ee0a + 0x643)
                                    } else {
                                        None
                                    }
                                } else {
                                    if c < 0x1ee0f {
                                        if c == 0x1ee0e {
                                            Some(0x633)
                                        } else {
                                            None
                                        }
                                    } else {
                                        if c == 0x1ee0f {
                                            Some(0x639)
                                        } else {
                                            None
                                        }
                                    }
                                }
                            } else {
                                if c < 0x1ee11 {
                                    if c == 0x1ee10 {
                                        Some(0x641)
                                    } else {
                                        None
                                    }
                                } else {
                                    if c < 0x1ee12 {
                                        if c == 0x1ee11 {
                                            Some(0x635)
                                        } else {
                                            None
                                        }
                                    } else {
                                        if c == 0x1ee12 {
                                            Some(0x642)
                                        } else {
                                            None
                                        }
                                    }
                                }
                            }
                        }
                    }
                }
            }
        } else {
            if c < 0x1ee68 {
                if c < 0x1ee34 {
                    if c < 0x1ee1f {
                        if c < 0x1ee19 {
                            if c < 0x1ee15 {
                                if c < 0x1ee14 {
                                    if c == 0x1ee13 {
                                        Some(0x631)
                                    } else {
                                        None
                                    }
                                } else {
                                    if c == 0x1ee14 {
                                        Some(0x634)
                                    } else {
                                        None
                                    }
                                }
                            } else {
                                if c < 0x1ee17 {
                                    if 0x1ee15 <= c < 0x1ee17 {
                                        Some(c - 0x1ee15 + 0x62a)
                                    } else {
                                        None
                                    }
                                } else {
                                    if c < 0x1ee18 {
                                        if c == 0x1ee17 {
                                            Some(0x62e)
                                        } else {
                                            None
                                        }
                                    } else {
                                        if c == 0x1ee18 {
                                            Some(0x630)
                                        } else {
                                            None
                                        }
                                    }
                                }
                            }
                        } else {
                            if c < 0x1ee1c {
                                if c < 0x1ee1a {
                                    if c == 0x1ee19 {
                                        Some(0x636)
                                    } else {
                                        None
                                    }
                                } else {
                                    if c < 0x1ee1b {
                                        if c == 0x1ee1a {
                                            Some(0x638)
                                        } else {
                                            None
                                        }
                                    } else {
                                        if c == 0x1ee1b {
                                            Some(0x63a)
                                        } else {
                                            None
                                        }
                                    }
                                }
                            } else {
                                if c < 0x1ee1d {
                                    if c == 0x1ee1c {
                                        Some(0x66e)
                                    } else {
                                        None
                                    }
                                } else {
                                    if c < 0x1ee1e {
                                        if c == 0x1ee1d {
                                            Some(0x6ba)
                                        } else {
                                            None
                                        }
                                    } else {
                                        if c == 0x1ee1e {
                                            Some(0x6a1)
                                        } else {
                                            None
                                        }
                                    }
                                }
                            }
                        }
                    } else {
                        if c < 0x1ee2a {
                            if c < 0x1ee24 {
                                if c < 0x1ee21 {
                                    if c == 0x1ee1f {
                                        Some(0x66f)
                                    } else {
                                        None
                                    }
                                } else {
                                    if c < 0x1ee22 {
                                        if c == 0x1ee21 {
                                            Some(0x628)
                                        } else {
                                            None
                                        }
                                    } else {
                                        if c == 0x1ee22 {
                                            Some(0x62c)
                                        } else {
                                            None
                                        }
                                    }
                                }
                            } else {
                                if c < 0x1ee27 {
                                    if c == 0x1ee24 {
                                        Some(0x647)
                                    } else {
                                        None
                                    }
                                } else {
                                    if c < 0x1ee29 {
                                        if c == 0x1ee27 {
                                            Some(0x62d)
                                        } else {
                                            None
                                        }
                                    } else {
                                        if c == 0x1ee29 {
                                            Some(0x64a)
                                        } else {
                                            None
                                        }
                                    }
                                }
                            }
                        } else {
                            if c < 0x1ee30 {
                                if c < 0x1ee2e {
                                    if 0x1ee2a <= c < 0x1ee2e {
                                        Some(c - 0x1ee2a + 0x643)
                                    } else {
                                        None
                                    }
                                } else {
                                    if c < 0x1ee2f {
                                        if c == 0x1ee2e {
                                            Some(0x633)
                                        } else {
                                            None
                                        }
                                    } else {
                                        if c == 0x1ee2f {
                                            Some(0x639)
                                        } else {
                                            None
                                        }
                                    }
                                }
                            } else {
                                if c < 0x1ee31 {
                                    if c == 0x1ee30 {
                                        Some(0x641)
                                    } else {
                                        None
                                    }
                                } else {
                                    if c < 0x1ee32 {
                                        if c == 0x1ee31 {
                                            Some(0x635)
                                        } else {
                                            None
                                        }
                                    } else {
                                        if c == 0x1ee32 {
                                            Some(0x642)
                                        } else {
                                            None
                                        }
                                    }
                                }
                            }
                        }
                    }
                } else {
                    if c < 0x1ee51 {
                        if c < 0x1ee47 {
                            if c < 0x1ee39 {
                                if c < 0x1ee35 {
                                    if c == 0x1ee34 {
                                        Some(0x634)
                                    } else {
                                        None
                                    }
                                } else {
                                    if c < 0x1ee37 {
                                        if 0x1ee35 <= c < 0x1ee37 {
                                            Some(c - 0x1ee35 + 0x62a)
                                        } else {
                                            None
                                        }
                                    } else {
                                        if c == 0x1ee37 {
                                            Some(0x62e)
                                        } else {
                                            None
                                        }
                                    }
                                }
                            } else {
                                if c < 0x1ee3b {
                                    if c == 0x1ee39 {
                                        Some(0x636)
                                    } else {
                                        None
                                    }
                                } else {
                                    if c < 0x1ee42 {
                                        if c == 0x1ee3b {
                                            Some(0x63a)
                                        } else {
                                            None
                                        }
                                    } else {
                                        if c == 0x1ee42 {
                                            Some(0x62c)
                                        } else {
                                            None
                                        }
                                    }
                                }
                            }
                        } else {
                            if c < 0x1ee4d {
                                if c < 0x1ee49 {
                                    if c == 0x1ee47 {
                                        Some(0x62d)
                                    } else {
                                        None
                                    }
                                } else {
                                    if c < 0x1ee4b {
                                        if c == 0x1ee49 {
                                            Some(0x64a)
                                        } else {
                                            None
                                        }
                                    } else {
                                        if c == 0x1ee4b {
                                            Some(0x644)
                                        } else {
                                            None
                                        }
                                    }
                                }
                            } else {
                                if c < 0x1ee4e {
                                    if c == 0x1ee4d {
                                        Some(0x646)
                                    } else {
                                        None
                                    }
                                } else {
                                    if c < 0x1ee4f {
                                        if c == 0x1ee4e {
                                            Some(0x633)
                                        } else {
                                            None
                                        }
                                    } else {
                                        if c == 0x1ee4f {
                                            Some(0x639)
                                        } else {
                                            None
                                        }
                                    }
                                }
                            }
                        }
                    } else {
                        if c < 0x1ee5d {
                            if c < 0x1ee57 {
                                if c < 0x1ee52 {
                                    if c == 0x1ee51 {
                                        Some(0x635)
                                    } else {
                                        None
                                    }
                                } else {
                                    if c < 0x1ee54 {
                                        if c == 0x1ee52 {
                                            Some(0x642)
                                        } else {
                                            None
                                        }
                                    } else {
                                        if c == 0x1ee54 {
                                            Some(0x634)
                                        } else {
                                            None
                                        }
                                    }
                                }
                            } else {
                                if c < 0x1ee59 {
                                    if c == 0x1ee57 {
                                        Some(0x62e)
                                    } else {
                                        None
                                    }
                                } else {
                                    if c < 0x1ee5b {
                                        if c == 0x1ee59 {
                                            Some(0x636)
                                        } else {
                                            None
                                        }
                                    } else {
                                        if c == 0x1ee5b {
                                            Some(0x63a)
                                        } else {
                                            None
                                        }
                                    }
                                }
                            }
                        } else {
                            if c < 0x1ee62 {
                                if c < 0x1ee5f {
                                    if c == 0x1ee5d {
                                        Some(0x6ba)
                                    } else {
                                        None
                                    }
                                } else {
                                    if c < 0x1ee61 {
                                        if c == 0x1ee5f {
                                            Some(0x66f)
                                        } else {
                                            None
                                        }
                                    } else {
                                        if c == 0x1ee61 {
                                            Some(0x628)
                                        } else {
                                            None
                                        }
                                    }
                                }
                            } else {
                                if c < 0x1ee64 {
                                    if c == 0x1ee62 {
                                        Some(0x62c)
                                    } else {
                                        None
                                    }
                                } else {
                                    if c < 0x1ee67 {
                                        if c == 0x1ee64 {
                                            Some(0x647)
                                        } else {
                                            None
                                        }
                                    } else {
                                        if c == 0x1ee67 {
                                            Some(0x62d)
                                        } else {
                                            None
                                        }
                                    }
                                }
                            }
                        }
                    }
                }
            } else {
                if c < 0x1ee88 {
                    if c < 0x1ee77 {
                        if c < 0x1ee6f {
                            if c < 0x1ee6a {
                                if c < 0x1ee69 {
                                    if c == 0x1ee68 {
                                        Some(0x637)
                                    } else {
                                        None
                                    }
                                } else {
                                    if c == 0x1ee69 {
                                        Some(0x64a)
                                    } else {
                                        None
                                    }
                                }
                            } else {
                                if c < 0x1ee6c {
                                    if c == 0x1ee6a {
                                        Some(0x643)
                                    } else {
                                        None
                                    }
                                } else {
                                    if c < 0x1ee6e {
                                        if 0x1ee6c <= c < 0x1ee6e {
                                            Some(c - 0x1ee6c + 0x645)
                                        } else {
                                            None
                                        }
                                    } else {
                                        if c == 0x1ee6e {
                                            Some(0x633)
                                        } else {
                                            None
                                        }
                                    }
                                }
                            }
                        } else {
                            if c < 0x1ee72 {
                                if c < 0x1ee70 {
                                    if c == 0x1ee6f {
                                        Some(0x639)
                                    } else {
                                        None
                                    }
                                } else {
                                    if c < 0x1ee71 {
                                        if c == 0x1ee70 {
                                            Some(0x641)
                                        } else {
                                            None
                                        }
                                    } else {
                                        if c == 0x1ee71 {
                                            Some(0x635)
                                        } else {
                                            None
                                        }
                                    }
                                }
                            } else {
                                if c < 0x1ee74 {
                                    if c == 0x1ee72 {
                                        Some(0x642)
                                    } else {
                                        None
                                    }
                                } else {
                                    if c < 0x1ee75 {
                                        if c == 0x1ee74 {
                                            Some(0x634)
                                        } else {
                                            None
                                        }
                                    } else {
                                        if 0x1ee75 <= c < 0x1ee77 {
                                            Some(c - 0x1ee75 + 0x62a)
                                        } else {
                                            None
                                        }
                                    }
                                }
                            }
                        }
                    } else {
                        if c < 0x1ee80 {
                            if c < 0x1ee7b {
                                if c < 0x1ee79 {
                                    if c == 0x1ee77 {
                                        Some(0x62e)
                                    } else {
                                        None
                                    }
                                } else {
                                    if c < 0x1ee7a {
                                        if c == 0x1ee79 {
                                            Some(0x636)
                                        } else {
                                            None
                                        }
                                    } else {
                                        if c == 0x1ee7a {
                                            Some(0x638)
                                        } else {
                                            None
                                        }
                                    }
                                }
                            } else {
                                if c < 0x1ee7c {
                                    if c == 0x1ee7b {
                                        Some(0x63a)
                                    } else {
                                        None
                                    }
                                } else {
                                    if c < 0x1ee7e {
                                        if c == 0x1ee7c {
                                            Some(0x66e)
                                        } else {
                                            None
                                        }
                                    } else {
                                        if c == 0x1ee7e {
                                            Some(0x6a1)
                                        } else {
                                            None
                                        }
                                    }
                                }
                            }
                        } else {
                            if c < 0x1ee84 {
                                if c < 0x1ee82 {
                                    if 0x1ee80 <= c < 0x1ee82 {
                                        Some(c - 0x1ee80 + 0x627)
                                    } else {
                                        None
                                    }
                                } else {
                                    if c < 0x1ee83 {
                                        if c == 0x1ee82 {
                                            Some(0x62c)
                                        } else {
                                            None
                                        }
                                    } else {
                                        if c == 0x1ee83 {
                                            Some(0x62f)
                                        } else {
                                            None
                                        }
                                    }
                                }
                            } else {
                                if c < 0x1ee86 {
                                    if 0x1ee84 <= c < 0x1ee86 {
                                        Some(c - 0x1ee84 + 0x647)
                                    } else {
                                        None
                                    }
                                } else {
                                    if c < 0x1ee87 {
                                        if c == 0x1ee86 {
                                            Some(0x632)
                                        } else {
                                            None
                                        }
                                    } else {
                                        if c == 0x1ee87 {
                                            Some(0x62d)
                                        } else {
                                            None
                                        }
                                    }
                                }
                            }
                        }
                    }
                } else {
                    if c < 0x1ee98 {
                        if c < 0x1ee91 {
                            if c < 0x1ee8e {
                                if c < 0x1ee89 {
                                    if c == 0x1ee88 {
                                        Some(0x637)
                                    } else {
                                        None
                                    }
                                } else {
                                    if c < 0x1ee8b {
                                        if c == 0x1ee89 {
                                            Some(0x64a)
                                        } else {
                                            None
                                        }
                                    } else {
                                        if 0x1ee8b <= c < 0x1ee8e {
                                            Some(c - 0x1ee8b + 0x644)
                                        } else {
                                            None
                                        }
                                    }
                                }
                            } else {
                                if c < 0x1ee8f {
                                    if c == 0x1ee8e {
                                        Some(0x633)
                                    } else {
                                        None
                                    }
                                } else {
                                    if c < 0x1ee90 {
                                        if c == 0x1ee8f {
                                            Some(0x639)
                                        } else {
                                            None
                                        }
                                    } else {
                                        if c == 0x1ee90 {
                                            Some(0x641)
                                        } else {
                                            None
                                        }
                                    }
                                }
                            }
                        } else {
                            if c < 0x1ee94 {
                                if c < 0x1ee92 {
                                    if c == 0x1ee91 {
                                        Some(0x635)
                                    } else {
                                        None
                                    }
                                } else {
                                    if c < 0x1ee93 {
                                        if c == 0x1ee92 {
                                            Some(0x642)
                                        } else {
                                            None
                                        }
                                    } else {
                                        if c == 0x1ee93 {
                                            Some(0x631)
                                        } else {
                                            None
                                        }
                                    }
                                }
                            } else {
                                if c < 0x1ee95 {
                                    if c == 0x1ee94 {
                                        Some(0x634)
                                    } else {
                                        None
                                    }
                                } else {
                                    if c < 0x1ee97 {
                                        if 0x1ee95 <= c < 0x1ee97 {
                                            Some(c - 0x1ee95 + 0x62a)
                                        } else {
                                            None
                                        }
                                    } else {
                                        if c == 0x1ee97 {
                                            Some(0x62e)
                                        } else {
                                            None
                                        }
                                    }
                                }
                            }
                        }
                    } else {
                        if c < 0x1f110 {
                            if c < 0x1ee9b {
                                if c < 0x1ee99 {
                                    if c == 0x1ee98 {
                                        Some(0x630)
                                    } else {
                                        None
                                    }
                                } else {
                                    if c < 0x1ee9a {
                                        if c == 0x1ee99 {
                                            Some(0x636)
                                        } else {
                                            None
                                        }
                                    } else {
                                        if c == 0x1ee9a {
                                            Some(0x638)
                                        } else {
                                            None
                                        }
                                    }
                                }
                            } else {
                                if c < 0x1f100 {
                                    if c == 0x1ee9b {
                                        Some(0x63a)
                                    } else {
                                        None
                                    }
                                } else {
                                    if c < 0x1f101 {
                                        if c == 0x1f100 {
                                            Some(0x30)
                                        } else {
                                            None
                                        }
                                    } else {
                                        if 0x1f101 <= c < 0x1f10b {
                                            Some(c - 0x1f101 + 0x30)
                                        } else {
                                            None
                                        }
                                    }
                                }
                            }
                        } else {
                            if c < 0x1f170 {
                                if c < 0x1f130 {
                                    if 0x1f110 <= c < 0x1f12a {
                                        Some(c - 0x1f110 + 0x41)
                                    } else {
                                        None
                                    }
                                } else {
                                    if c < 0x1f150 {
                                        if 0x1f130 <= c < 0x1f14a {
                                            Some(c - 0x1f130 + 0x41)
                                        } else {
                                            None
                                        }
                                    } else {
                                        if 0x1f150 <= c < 0x1f16a {
                                            Some(c - 0x1f150 + 0x41)
                                        } else {
                                            None
                                        }
                                    }
                                }
                            } else {
                                if c < 0x1f1e6 {
                                    if 0x1f170 <= c < 0x1f18a {
                                        Some(c - 0x1f170 + 0x41)
                                    } else {
                                        None
                                    }
                                } else {
                                    if c < 0x1fbf0 {
                                        if 0x1f1e6 <= c < 0x1f200 {
                                            Some(c - 0x1f1e6 + 0x41)
                                        } else {
                                            None
                                        }
                                    } else {
                                        if 0x1fbf0 <= c < 0x1fbfa {
                                            Some(c - 0x1fbf0 + 0x30)
                                        } else {
                                            None
                                        }
                                    }
                                }
                            }
                        }
                    }
                }
            }
        }
    }
}

/// Computes `plain_code`.
pub fn plain_lookup(c: u32) -> (r: Option<u32>)
    ensures
        widen(r) == plain_code(c as int),
{
    if c < 0x1d586 {
        if c < 0x2091 {
            if c < 0x1d07 {
                if c < 0x391 {
                    if c < 0x28f {
                        if c < 0x237 {
                            if c < 0xb9 {
                                if c < 0xb2 {
                                    if 0x21 <= c && c < 0x7f {
                                        Some(c)
                                    } else {
                                        None
                                    }
                                } else {
                                    if 0xb2 <= c && c < 0xb4 {
                                        Some(c - 0xb2 + 0x32)
                                    } else {
                                        None
                                    }
                                }
                            } else {
                                if c < 0x127 {
                                    if c == 0xb9 {
                                        Some(0x31)
                                    } else {
                                        None
                                    }
                                } else {
                                    if c < 0x131 {
                                        if c == 0x127 {
                                            Some(0x127)
                                        } else {
                                            None
                                        }
                                    } else {
                                        if c == 0x131 {
                                            Some(0x131)
                                        } else {
                                            None
                                        }
                                    }
                                }
                            }
                        } else {
                            if c < 0x26a {
                                if c < 0x259 {
                                    if c == 0x237 {
                                        Some(0x237)
                                    } else {
                                        None
                                    }
                                } else {
                                    if c < 0x262 {
                                        if c == 0x259 {
                                            Some(0x259)
                                        } else {
                                            None
                                        }
                                    } else {
                                        if c == 0x262 {
                                            Some(0x47)
                                        } else {
                                            None
                                        }
                                    }
                                }
                            } else {
                                if c < 0x274 {
                                    if c == 0x26a {
                                        Some(0x49)
                                    } else {
                                        None
                                    }
                                } else {
                                    if c < 0x280 {
                                        if c == 0x274 {
                                            Some(0x4e)
                                        } else {
                                            None
                                        }
                                    } else {
                                        if c == 0x280 {
                                            Some(0x52)
                                        } else {
                                            None
                                        }
                                    }
                                }
                            }
                        }
                    } else {
                        if c < 0x2b3 {
                            if c < 0x29f {
                                if c < 0x299 {
                                    if c == 0x28f {
                                        Some(0x59)
                                    } else {
                                        None
                                    }
                                } else {
                                    if c < 0x29c {
                                        if c == 0x299 {
                                            Some(0x42)
                                        } else {
                                            None
                                        }
                                    } else {
                                        if c == 0x29c {
                                            Some(0x48)
                                        } else {
                                            None
                                        }
                                    }
                                }
                            } else {
                                if c < 0x2b0 {
                                    if c == 0x29f {
                                        Some(0x4c)
                                    } else {
                                        None
                                    }
                                } else {
                                    if c < 0x2b2 {
                                        if c == 0x2b0 {
                                            Some(0x68)
                                        } else {
                                            None
                                        }
                                    } else {
                                        if c == 0x2b2 {
                                            Some(0x6a)
                                        } else {
                                            None
                                        }
                                    }
                                }
                            }
                        } else {
                            if c < 0x2e1 {
                                if c < 0x2b7 {
                                    if c == 0x2b3 {
                                        Some(0x72)
                                    } else {
                                        None
                                    }
                                } else {
                                    if c < 0x2b8 {
                                        if c == 0x2b7 {
                                            Some(0x77)
                                        } else {
                                            None
                                        }
                                    } else {
                                        if c == 0x2b8 {
                                            Some(0x79)
                                        } else {
                                            None
                                        }
                                    }
                                }
                            } else {
                                if c < 0x2e2 {
                                    if c == 0x2e1 {
                                        Some(0x6c)
                                    } else {
                                        None
                                    }
                                } else {
                                    if c < 0x2e3 {
                                        if c == 0x2e2 {
                                            Some(0x73)
                                        } else {
                                            None
                                        }
                                    } else {
                                        if c == 0x2e3 {
                                            Some(0x78)
                                        } else {
                                            None
                                        }
                                    }
                                }
                            }
                        }
                    }
                } else {
                    if c < 0x5e2 {
                        if c < 0x3dc {
                            if c < 0x3b1 {
                                if c < 0x3a3 {
                                    if 0x391 <= c && c < 0x3a2 {
                                        Some(c)
                                    } else {
                                        None
                                    }
                                } else {
                                    if 0x3a3 <= c && c < 0x3aa {
                                        Some(c)
                                    } else {
                                        None
                                    }
                                }
                            } else {
                                if c < 0x3d1 {
                                    if 0x3b1 <= c && c < 0x3ca {
                                        Some(c)
                                    } else {
                                        None
                                    }
                                } else {
                                    if c < 0x3d5 {
                                        if c == 0x3d1 {
                                            Some(0x3d1)
                                        } else {
                                            None
                                        }
                                    } else {
                                        if 0x3d5 <= c && c < 0x3d7 {
                                            Some(c)
                                        } else {
                                            None
                                        }
                                    }
                                }
                            }
                        } else {
                            if c < 0x5d0 {
                                if c < 0x3f0 {
                                    if 0x3dc <= c && c < 0x3de {
                                        Some(c)
                                    } else {
                                        None
                                    }
                                } else {
                                    if c < 0x3f4 {
                                        if 0x3f0 <= c && c < 0x3f2 {
                                            Some(c)
                                        } else {
                                            None
                                        }
                                    } else {
                                        if 0x3f4 <= c && c < 0x3f6 {
                                            Some(c)
                                        } else {
                                            None
                                        }
                                    }
                                }
                            } else {
                                if c < 0x5d3 {
                                    if c == 0x5d0 {
                                        Some(0x5d0)
                                    } else {
                                        None
                                    }
                                } else {
                                    if c < 0x5db {
                                        if 0x5d3 <= c && c < 0x5d5 {
                                            Some(c)
                                        } else {
                                            None
                                        }
                                    } else {
                                        if 0x5db <= c && c < 0x5de {
                                            Some(c)
                                        } else {
                                            None
                                        }
                                    }
                                }
                            }
                        }
                    } else {
                        if c < 0x64a {
                            if c < 0x627 {
                                if c < 0x5e8 {
                                    if c == 0x5e2 {
                                        Some(0x5e2)
                                    } else {
                                        None
                                    }
                                } else {
                                    if c < 0x5ea {
                                        if c == 0x5e8 {
                                            Some(0x5e8)
                                        } else {
                                            None
                                        }
                                    } else {
                                        if c == 0x5ea {
                                            Some(0x5ea)
                                        } else {
                                            None
                                        }
                                    }
                                }
                            } else {
                                if c < 0x62a {
                                    if 0x627 <= c && c < 0x629 {
                                        Some(c)
                                    } else {
                                        None
                                    }
                                } else {
                                    if c < 0x641 {
                                        if 0x62a <= c && c < 0x63b {
                                            Some(c)
                                        } else {
                                            None
                                        }
                                    } else {
                                        if 0x641 <= c && c < 0x649 {
                                            Some(c)
                                        } else {
                                            None
                                        }
                                    }
                                }
                            }
                        } else {
                            if c < 0x6ba {
                                if c < 0x66e {
                                    if c == 0x64a {
                                        Some(0x64a)
                                    } else {
                                        None
                                    }
                                } else {
                                    if c < 0x6a1 {
                                        if 0x66e <= c && c < 0x670 {
                                            Some(c)
                                        } else {
                                            None
                                        }
                                    } else {
                                        if c == 0x6a1 {
                                            Some(0x6a1)
                                        } else {
                                            None
                                        }
                                    }
                                }
                            } else {
                                if c < 0x1d00 {
                                    if c == 0x6ba {
                                        Some(0x6ba)
                                    } else {
                                        None
                                    }
                                } else {
                                    if c < 0x1d04 {
                                        if c == 0x1d00 {
                                            Some(0x41)
                                        } else {
                                            None
                                        }
                                    } else {
                                        if 0x1d04 <= c && c < 0x1d06 {
                                            Some(c - 0x1d04 + 0x43)
                                        } else {
                                            None
                                        }
                                    }
                                }
                            }
                        }
                    }
                }
            } else {
                if c < 0x1d52 {
                    if c < 0x1d33 {
                        if c < 0x1d1b {
                            if c < 0x1d0d {
                                if c < 0x1d0a {
                                    if c == 0x1d07 {
                                        Some(0x45)
                                    } else {
                                        None
                                    }
                                } else {
                                    if 0x1d0a <= c && c < 0x1d0c {
                                        Some(c - 0x1d0a + 0x4a)
                                    } else {
                                        None
                                    }
                                }
                            } else {
                                if c < 0x1d0f {
                                    if c == 0x1d0d {
                                        Some(0x4d)
                                    } else {
                                        None
                                    }
                                } else {
                                    if c < 0x1d18 {
                                        if c == 0x1d0f {
                                            Some(0x4f)
                                        } else {
                                            None
                                        }
                                    } else {
                                        if c == 0x1d18 {
                                            Some(0x50)
                                        } else {
                                            None
                                        }
                                    }
                                }
                            }
                        } else {
                            if c < 0x1d2c {
                                if c < 0x1d20 {
                                    if 0x1d1b <= c && c < 0x1d1d {
                                        Some(c - 0x1d1b + 0x54)
                                    } else {
                                        None
                                    }
                                } else {
                                    if c < 0x1d22 {
                                        if 0x1d20 <= c && c < 0x1d22 {
                                            Some(c - 0x1d20 + 0x56)
                                        } else {
                                            None
                                        }
                                    } else {
                                        if c == 0x1d22 {
                                            Some(0x5a)
                                        } else {
                                            None
                                        }
                                    }
                                }
                            } else {
                                if c < 0x1d2e {
                                    if c == 0x1d2c {
                                        Some(0x41)
                                    } else {
                                        None
                                    }
                                } else {
                                    if c < 0x1d30 {
                                        if c == 0x1d2e {
                                            Some(0x42)
                                        } else {
                                            None
                                        }
                                    } else {
                                        if 0x1d30 <= c && c < 0x1d32 {
                                            Some(c - 0x1d30 + 0x44)
                                        } else {
                                            None
                                        }
                                    }
                                }
                            }
                        }
                    } else {
                        if c < 0x1d43 {
                            if c < 0x1d3f {
                                if c < 0x1d3c {
                                    if 0x1d33 <= c && c < 0x1d3b {
                                        Some(c - 0x1d33 + 0x47)
                                    } else {
                                        None
                                    }
                                } else {
                                    if c < 0x1d3e {
                                        if c == 0x1d3c {
                                            Some(0x4f)
                                        } else {
                                            None
                                        }
                                    } else {
                                        if c == 0x1d3e {
                                            Some(0x50)
                                        } else {
                                            None
                                        }
                                    }
                                }
                            } else {
                                if c < 0x1d40 {
                                    if c == 0x1d3f {
                                        Some(0x52)
                                    } else {
                                        None
                                    }
                                } else {
                                    if c < 0x1d42 {
                                        if 0x1d40 <= c && c < 0x1d42 {
                                            Some(c - 0x1d40 + 0x54)
                                        } else {
                                            None
                                        }
                                    } else {
                                        if c == 0x1d42 {
                                            Some(0x57)
                                        } else {
                                            None
                                        }
                                    }
                                }
                            }
                        } else {
                            if c < 0x1d4d {
                                if c < 0x1d47 {
                                    if c == 0x1d43 {
                                        Some(0x61)
                                    } else {
                                        None
                                    }
                                } else {
                                    if c < 0x1d48 {
                                        if c == 0x1d47 {
                                            Some(0x62)
                                        } else {
                                            None
                                        }
                                    } else {
                                        if 0x1d48 <= c && c < 0x1d4a {
                                            Some(c - 0x1d48 + 0x64)
                                        } else {
                                            None
                                        }
                                    }
                                }
                            } else {
                                if c < 0x1d4f {
                                    if c == 0x1d4d {
                                        Some(0x67)
                                    } else {
                                        None
                                    }
                                } else {
                                    if c < 0x1d50 {
                                        if c == 0x1d4f {
                                            Some(0x6b)
                                        } else {
                                            None
                                        }
                                    } else {
                                        if c == 0x1d50 {
                                            Some(0x6d)
                                        } else {
                                            None
                                        }
                                    }
                                }
                            }
                        }
                    }
                } else {
                    if c < 0x2074 {
                        if c < 0x1d64 {
                            if c < 0x1d5b {
                                if c < 0x1d56 {
                                    if c == 0x1d52 {
                                        Some(0x6f)
                                    } else {
                                        None
                                    }
                                } else {
                                    if c < 0x1d57 {
                                        if c == 0x1d56 {
                                            Some(0x70)
                                        } else {
                                            None
                                        }
                                    } else {
                                        if 0x1d57 <= c && c < 0x1d59 {
                                            Some(c - 0x1d57 + 0x74)
                                        } else {
                                            None
                                        }
                                    }
                                }
                            } else {
                                if c < 0x1d62 {
                                    if c == 0x1d5b {
                                        Some(0x76)
                                    } else {
                                        None
                                    }
                                } else {
                                    if c < 0x1d63 {
                                        if c == 0x1d62 {
                                            Some(0x69)
                                        } else {
                                            None
                                        }
                                    } else {
                                        if c == 0x1d63 {
                                            Some(0x72)
                                        } else {
                                            None
                                        }
                                    }
                                }
                            }
                        } else {
                            if c < 0x1dbb {
                                if c < 0x1d9c {
                                    if 0x1d64 <= c && c < 0x1d66 {
                                        Some(c - 0x1d64 + 0x75)
                                    } else {
                                        None
                                    }
                                } else {
                                    if c < 0x1da0 {
                                        if c == 0x1d9c {
                                            Some(0x63)
                                        } else {
                                            None
                                        }
                                    } else {
                                        if c == 0x1da0 {
                                            Some(0x66)
                                        } else {
                                            None
                                        }
                                    }
                                }
                            } else {
                                if c < 0x2070 {
                                    if c == 0x1dbb {
                                        Some(0x7a)
                                    } else {
                                        None
                                    }
                                } else {
                                    if c < 0x2071 {
                                        if c == 0x2070 {
                                            Some(0x30)
                                        } else {
                                            None
                                        }
                                    } else {
                                        if c == 0x2071 {
                                            Some(0x69)
                                        } else {
                                            None
                                        }
                                    }
                                }
                            }
                        }
                    } else {
                        if c < 0x2080 {
                            if c < 0x207c {
                                if c < 0x207a {
                                    if 0x2074 <= c && c < 0x207a {
                                        Some(c - 0x2074 + 0x34)
                                    } else {
                                        None
                                    }
                                } else {
                                    if c < 0x207b {
                                        if c == 0x207a {
                                            Some(0x2b)
                                        } else {
                                            None
                                        }
                                    } else {
                                        if c == 0x207b {
                                            Some(0x2212)
                                        } else {
                                            None
                                        }
                                    }
                                }
                            } else {
                                if c < 0x207d {
                                    if c == 0x207c {
                                        Some(0x3d)
                                    } else {
                                        None
                                    }
                                } else {
                                    if c < 0x207f {
                                        if 0x207d <= c && c < 0x207f {
                                            Some(c - 0x207d + 0x28)
                                        } else {
                                            None
                                        }
                                    } else {
                                        if c == 0x207f {
                                            Some(0x6e)
                                        } else {
                                            None
                                        }
                                    }
                                }
                            }
                        } else {
                            if c < 0x208c {
                                if c < 0x208a {
                                    if 0x2080 <= c && c < 0x208a {
                                        Some(c - 0x2080 + 0x30)
                                    } else {
                                        None
                                    }
                                } else {
                                    if c < 0x208b {
                                        if c == 0x208a {
                                            Some(0x2b)
                                        } else {
                                            None
                                        }
                                    } else {
                                        if c == 0x208b {
                                            Some(0x2212)
                                        } else {
                                            None
                                        }
                                    }
                                }
                            } else {
                                if c < 0x208d {
                                    if c == 0x208c {
                                        Some(0x3d)
                                    } else {
                                        None
                                    }
                                } else {
                                    if c < 0x2090 {
                                        if 0x208d <= c && c < 0x208f {
                                            Some(c - 0x208d + 0x28)
                                        } else {
                                            None
                                        }
                                    } else {
                                        if c == 0x2090 {
                                            Some(0x61)
                                        } else {
                                            None
                                        }
                                    }
                                }
                            }
                        }
                    }
                }
            }
        } else {
            if c < 0x24d0 {
                if c < 0x2124 {
                    if c < 0x210c {
                        if c < 0x2096 {
                            if c < 0x2093 {
                                if c < 0x2092 {
                                    if c == 0x2091 {
                                        Some(0x65)
                                    } else {
                                        None
                                    }
                                } else {
                                    if c == 0x2092 {
                                        Some(0x6f)
                                    } else {
                                        None
                                    }
                                }
                            } else {
                                if c < 0x2094 {
                                    if c == 0x2093 {
                                        Some(0x78)
                                    } else {
                                        None
                                    }
                                } else {
                                    if c < 0x2095 {
                                        if c == 0x2094 {
                                            Some(0x259)
                                        } else {
                                            None
                                        }
                                    } else {
                                        if c == 0x2095 {
                                            Some(0x68)
                                        } else {
                                            None
                                        }
                                    }
                                }
                            }
                        } else {
                            if c < 0x2102 {
                                if c < 0x209a {
                                    if 0x2096 <= c && c < 0x209a {
                                        Some(c - 0x2096 + 0x6b)
                                    } else {
                                        None
                                    }
                                } else {
                                    if c < 0x209b {
                                        if c == 0x209a {
                                            Some(0x70)
                                        } else {
                                            None
                                        }
                                    } else {
                                        if 0x209b <= c && c < 0x209d {
                                            Some(c - 0x209b + 0x73)
                                        } else {
                                            None
                                        }
                                    }
                                }
                            } else {
                                if c < 0x210a {
                                    if c == 0x2102 {
                                        Some(0x43)
                                    } else {
                                        None
                                    }
                                } else {
                                    if c < 0x210b {
                                        if c == 0x210a {
                                            Some(0x67)
                                        } else {
                                            None
                                        }
                                    } else {
                                        if c == 0x210b {
                                            Some(0x48)
                                        } else {
                                            None
                                        }
                                    }
                                }
                            }
                        }
                    } else {
                        if c < 0x2112 {
                            if c < 0x210f {
                                if c < 0x210d {
                                    if c == 0x210c {
                                        Some(0x48)
                                    } else {
                                        None
                                    }
                                } else {
                                    if c < 0x210e {
                                        if c == 0x210d {
                                            Some(0x48)
                                        } else {
                                            None
                                        }
                                    } else {
                                        if c == 0x210e {
                                            Some(0x68)
                                        } else {
                                            None
                                        }
                                    }
                                }
                            } else {
                                if c < 0x2110 {
                                    if c == 0x210f {
                                        Some(0x127)
                                    } else {
                                        None
                                    }
                                } else {
                                    if c < 0x2111 {
                                        if c == 0x2110 {
                                            Some(0x49)
                                        } else {
                                            None
                                        }
                                    } else {
                                        if c == 0x2111 {
                                            Some(0x49)
                                        } else {
                                            None
                                        }
                                    }
                                }
                            }
                        } else {
                            if c < 0x2119 {
                                if c < 0x2113 {
                                    if c == 0x2112 {
                                        Some(0x4c)
                                    } else {
                                        None
                                    }
                                } else {
                                    if c < 0x2115 {
                                        if c == 0x2113 {
                                            Some(0x6c)
                                        } else {
                                            None
                                        }
                                    } else {
                                        if c == 0x2115 {
                                            Some(0x4e)
                                        } else {
                                            None
                                        }
                                    }
                                }
                            } else {
                                if c < 0x211c {
                                    if 0x2119 <= c && c < 0x211c {
                                        Some(c - 0x2119 + 0x50)
                                    } else {
                                        None
                                    }
                                } else {
                                    if c < 0x211d {
                                        if c == 0x211c {
                                            Some(0x52)
                                        } else {
                                            None
                                        }
                                    } else {
                                        if c == 0x211d {
                                            Some(0x52)
                                        } else {
                                            None
                                        }
                                    }
                                }
                            }
                        }
                    }
                } else {
                    if c < 0x2140 {
                        if c < 0x2134 {
                            if c < 0x212f {
                                if c < 0x2128 {
                                    if c == 0x2124 {
                                        Some(0x5a)
                                    } else {
                                        None
                                    }
                                } else {
                                    if c < 0x212c {
                                        if c == 0x2128 {
                                            Some(0x5a)
                                        } else {
                                            None
                                        }
                                    } else {
                                        if 0x212c <= c && c < 0x212e {
                                            Some(c - 0x212c + 0x42)
                                        } else {
                                            None
                                        }
                                    }
                                }
                            } else {
                                if c < 0x2130 {
                                    if c == 0x212f {
                                        Some(0x65)
                                    } else {
                                        None
                                    }
                                } else {
                                    if c < 0x2133 {
                                        if 0x2130 <= c && c < 0x2132 {
                                            Some(c - 0x2130 + 0x45)
                                        } else {
                                            None
                                        }
                                    } else {
                                        if c == 0x2133 {
                                            Some(0x4d)
                                        } else {
                                            None
                                        }
                                    }
                                }
                            }
                        } else {
                            if c < 0x213d {
                                if c < 0x2139 {
                                    if c == 0x2134 {
                                        Some(0x6f)
                                    } else {
                                        None
                                    }
                                } else {
                                    if c < 0x213c {
                                        if c == 0x2139 {
                                            Some(0x69)
                                        } else {
                                            None
                                        }
                                    } else {
                                        if c == 0x213c {
                                            Some(0x3c0)
                                        } else {
                                            None
                                        }
                                    }
                                }
                            } else {
                                if c < 0x213e {
                                    if c == 0x213d {
                                        Some(0x3b3)
                                    } else {
                                        None
                                    }
                                } else {
                                    if c < 0x213f {
                                        if c == 0x213e {
                                            Some(0x393)
                                        } else {
                                            None
                                        }
                                    } else {
                                        if c == 0x213f {
                                            Some(0x3a0)
                                        } else {
                                            None
                                        }
                                    }
                                }
                            }
                        }
                    } else {
                        if c < 0x2211 {
                            if c < 0x2148 {
                                if c < 0x2145 {
                                    if c == 0x2140 {
                                        Some(0x2211)
                                    } else {
                                        None
                                    }
                                } else {
                                    if c < 0x2146 {
                                        if c == 0x2145 {
                                            Some(0x44)
                                        } else {
                                            None
                                        }
                                    } else {
                                        if 0x2146 <= c && c < 0x2148 {
                                            Some(c - 0x2146 + 0x64)
                                        } else {
                                            None
                                        }
                                    }
                                }
                            } else {
                                if c < 0x2202 {
                                    if 0x2148 <= c && c < 0x214a {
                                        Some(c - 0x2148 + 0x69)
                                    } else {
                                        None
                                    }
                                } else {
                                    if c < 0x2207 {
                                        if c == 0x2202 {
                                            Some(0x2202)
                                        } else {
                                            None
                                        }
                                    } else {
                                        if c == 0x2207 {
                                            Some(0x2207)
                                        } else {
                                            None
                                        }
                                    }
                                }
                            }
                        } else {
                            if c < 0x2488 {
                                if c < 0x2460 {
                                    if 0x2211 <= c && c < 0x2213 {
                                        Some(c)
                                    } else {
                                        None
                                    }
                                } else {
                                    if c < 0x2474 {
                                        if 0x2460 <= c && c < 0x2469 {
                                            Some(c - 0x2460 + 0x31)
                                        } else {
                                            None
                                        }
                                    } else {
                                        if 0x2474 <= c && c < 0x247d {
                                            Some(c - 0x2474 + 0x31)
                                        } else {
                                            None
                                        }
                                    }
                                }
                            } else {
                                if c < 0x249c {
                                    if 0x2488 <= c && c < 0x2491 {
                                        Some(c - 0x2488 + 0x31)
                                    } else {
                                        None
                                    }
                                } else {
                                    if c < 0x24b6 {
                                        if 0x249c <= c && c < 0x24b6 {
                                            Some(c - 0x249c + 0x61)
                                        } else {
                                            None
                                        }
                                    } else {
                                        if 0x24b6 <= c && c < 0x24d0 {
                                            Some(c - 0x24b6 + 0x41)
                                        } else {
                                            None
                                        }
                                    }
                                }
                            }
                        }
                    }
                }
            } else {
                if c < 0x1d49c {
                    if c < 0xfb24 {
                        if c < 0xa730 {
                            if c < 0x24ff {
                                if c < 0x24ea {
                                    if 0x24d0 <= c && c < 0x24ea {
                                        Some(c - 0x24d0 + 0x61)
                                    } else {
                                        None
                                    }
                                } else {
                                    if c == 0x24ea {
                                        Some(0x30)
                                    } else {
                                        None
                                    }
                                }
                            } else {
                                if c < 0x2776 {
                                    if c == 0x24ff {
                                        Some(0x30)
                                    } else {
                                        None
                                    }
                                } else {
                                    if c < 0x2c7c {
                                        if 0x2776 <= c && c < 0x277f {
                                            Some(c - 0x2776 + 0x31)
                                        } else {
                                            None
                                        }
                                    } else {
                                        if c == 0x2c7c {
                                            Some(0x6a)
                                        } else {
                                            None
                                        }
                                    }
                                }
                            }
                        } else {
                            if c < 0xfb20 {
                                if c < 0xa731 {
                                    if c == 0xa730 {
                                        Some(0x46)
                                    } else {
                                        None
                                    }
                                } else {
                                    if c < 0xa7af {
                                        if c == 0xa731 {
                                            Some(0x53)
                                        } else {
                                            None
                                        }
                                    } else {
                                        if c == 0xa7af {
                                            Some(0x51)
                                        } else {
                                            None
                                        }
                                    }
                                }
                            } else {
                                if c < 0xfb21 {
                                    if c == 0xfb20 {
                                        Some(0x5e2)
                                    } else {
                                        None
                                    }
                                } else {
                                    if c < 0xfb22 {
                                        if c == 0xfb21 {
                                            Some(0x5d0)
                                        } else {
                                            None
                                        }
                                    } else {
                                        if 0xfb22 <= c && c < 0xfb24 {
                                            Some(c - 0xfb22 + 0x5d3)
                                        } else {
                                            None
                                        }
                                    }
                                }
                            }
                        }
                    } else {
                        if c < 0x1d41a {
                            if c < 0xfb29 {
                                if c < 0xfb27 {
                                    if 0xfb24 <= c && c < 0xfb27 {
                                        Some(c - 0xfb24 + 0x5db)
                                    } else {
                                        None
                                    }
                                } else {
                                    if c < 0xfb28 {
                                        if c == 0xfb27 {
                                            Some(0x5e8)
                                        } else {
                                            None
                                        }
                                    } else {
                                        if c == 0xfb28 {
                                            Some(0x5ea)
                                        } else {
                                            None
                                        }
                                    }
                                }
                            } else {
                                if c < 0xff01 {
                                    if c == 0xfb29 {
                                        Some(0x2b)
                                    } else {
                                        None
                                    }
                                } else {
                                    if c < 0x1d400 {
                                        if 0xff01 <= c && c < 0xff5f {
                                            Some(c - 0xff01 + 0x21)
                                        } else {
                                            None
                                        }
                                    } else {
                                        if 0x1d400 <= c && c < 0x1d41a {
                                            Some(c - 0x1d400 + 0x41)
                                        } else {
                                            None
                                        }
                                    }
                                }
                            }
                        } else {
                            if c < 0x1d456 {
                                if c < 0x1d434 {
                                    if 0x1d41a <= c && c < 0x1d434 {
                                        Some(c - 0x1d41a + 0x61)
                                    } else {
                                        None
                                    }
                                } else {
                                    if c < 0x1d44e {
                                        if 0x1d434 <= c && c < 0x1d44e {
                                            Some(c - 0x1d434 + 0x41)
                                        } else {
                                            None
                                        }
                                    } else {
                                        if 0x1d44e <= c && c < 0x1d455 {
                                            Some(c - 0x1d44e + 0x61)
                                        } else {
                                            None
                                        }
                                    }
                                }
                            } else {
                                if c < 0x1d468 {
                                    if 0x1d456 <= c && c < 0x1d468 {
                                        Some(c - 0x1d456 + 0x69)
                                    } else {
                                        None
                                    }
                                } else {
                                    if c < 0x1d482 {
                                        if 0x1d468 <= c && c < 0x1d482 {
                                            Some(c - 0x1d468 + 0x41)
                                        } else {
                                            None
                                        }
                                    } else {
                                        if 0x1d482 <= c && c < 0x1d49c {
                                            Some(c - 0x1d482 + 0x61)
                                        } else {
                                            None
                                        }
                                    }
                                }
                            }
                        }
                    }
                } else {
                    if c < 0x1d504 {
                        if c < 0x1d4b6 {
                            if c < 0x1d4a5 {
                                if c < 0x1d49e {
                                    if c == 0x1d49c {
                                        Some(0x41)
                                    } else {
                                        None
                                    }
                                } else {
                                    if c < 0x1d4a2 {
                                        if 0x1d49e <= c && c < 0x1d4a0 {
                                            Some(c - 0x1d49e + 0x43)
                                        } else {
                                            None
                                        }
                                    } else {
                                        if c == 0x1d4a2 {
                                            Some(0x47)
                                        } else {
                                            None
                                        }
                                    }
                                }
                            } else {
                                if c < 0x1d4a9 {
                                    if 0x1d4a5 <= c && c < 0x1d4a7 {
                                        Some(c - 0x1d4a5 + 0x4a)
                                    } else {
                                        None
                                    }
                                } else {
                                    if c < 0x1d4ae {
                                        if 0x1d4a9 <= c && c < 0x1d4ad {
                                            Some(c - 0x1d4a9 + 0x4e)
                                        } else {
                                            None
                                        }
                                    } else {
                                        if 0x1d4ae <= c && c < 0x1d4b6 {
                                            Some(c - 0x1d4ae + 0x53)
                                        } else {
                                            None
                                        }
                                    }
                                }
                            }
                        } else {
                            if c < 0x1d4c5 {
                                if c < 0x1d4bb {
                                    if 0x1d4b6 <= c && c < 0x1d4ba {
                                        Some(c - 0x1d4b6 + 0x61)
                                    } else {
                                        None
                                    }
                                } else {
                                    if c < 0x1d4bd {
                                        if c == 0x1d4bb {
                                            Some(0x66)
                                        } else {
                                            None
                                        }
                                    } else {
                                        if 0x1d4bd <= c && c < 0x1d4c4 {
                                            Some(c - 0x1d4bd + 0x68)
                                        } else {
                                            None
                                        }
                                    }
                                }
                            } else {
                                if c < 0x1d4d0 {
                                    if 0x1d4c5 <= c && c < 0x1d4d0 {
                                        Some(c - 0x1d4c5 + 0x70)
                                    } else {
                                        None
                                    }
                                } else {
                                    if c < 0x1d4ea {
                                        if 0x1d4d0 <= c && c < 0x1d4ea {
                                            Some(c - 0x1d4d0 + 0x41)
                                        } else {
                                            None
                                        }
                                    } else {
                                        if 0x1d4ea <= c && c < 0x1d504 {
                                            Some(c - 0x1d4ea + 0x61)
                                        } else {
                                            None
                                        }
                                    }
                                }
                            }
                        }
                    } else {
                        if c < 0x1d53b {
                            if c < 0x1d516 {
                                if c < 0x1d507 {
                                    if 0x1d504 <= c && c < 0x1d506 {
                                        Some(c - 0x1d504 + 0x41)
                                    } else {
                                        None
                                    }
                                } else {
                                    if c < 0x1d50d {
                                        if 0x1d507 <= c && c < 0x1d50b {
                                            Some(c - 0x1d507 + 0x44)
                                        } else {
                                            None
                                        }
                                    } else {
                                        if 0x1d50d <= c && c < 0x1d515 {
                                            Some(c - 0x1d50d + 0x4a)
                                        } else {
                                            None
                                        }
                                    }
                                }
                            } else {
                                if c < 0x1d51e {
                                    if 0x1d516 <= c && c < 0x1d51d {
                                        Some(c - 0x1d516 + 0x53)
                                    } else {
                                        None
                                    }
                                } else {
                                    if c < 0x1d538 {
                                        if 0x1d51e <= c && c < 0x1d538 {
                                            Some(c - 0x1d51e + 0x61)
                                        } else {
                                            None
                                        }
                                    } else {
                                        if 0x1d538 <= c && c < 0x1d53a {
                                            Some(c - 0x1d538 + 0x41)
                                        } else {
                                            None
                                        }
                                    }
                                }
                            }
                        } else {
                            if c < 0x1d54a {
                                if c < 0x1d540 {
                                    if 0x1d53b <= c && c < 0x1d53f {
                                        Some(c - 0x1d53b + 0x44)
                                    } else {
                                        None
                                    }
                                } else {
                                    if c < 0x1d546 {
                                        if 0x1d540 <= c && c < 0x1d545 {
                                            Some(c - 0x1d540 + 0x49)
                                        } else {
                                            None
                                        }
                                    } else {
                                        if c == 0x1d546 {
                                            Some(0x4f)
                                        } else {
                                            None
                                        }
                                    }
                                }
                            } else {
                                if c < 0x1d552 {
                                    if 0x1d54a <= c && c < 0x1d551 {
                                        Some(c - 0x1d54a + 0x53)
                                    } else {
                                        None
                                    }
                                } else {
                                    if c < 0x1d56c {
                                        if 0x1d552 <= c && c < 0x1d56c {
                                            Some(c - 0x1d552 + 0x61)
                                        } else {
                                            None
                                        }
                                    } else {
                                        if 0x1d56c <= c && c < 0x1d586 {
                                            Some(c - 0x1d56c + 0x41)
                                        } else {
                                            None
                                        }
                                    }
                                }
                            }
                        }
                    }
                }
            }
        }
    } else {
        if c < 0x1ee13 {
            if c < 0x1d753 {
                if c < 0x1d6e0 {
                    if c < 0x1d6a4 {
                        if c < 0x1d608 {
                            if c < 0x1d5ba {
                                if c < 0x1d5a0 {
                                    if 0x1d586 <= c && c < 0x1d5a0 {
                                        Some(c - 0x1d586 + 0x61)
                                    } else {
                                        None
                                    }
                                } else {
                                    if 0x1d5a0 <= c && c < 0x1d5ba {
                                        Some(c - 0x1d5a0 + 0x41)
                                    } else {
                                        None
                                    }
                                }
                            } else {
                                if c < 0x1d5d4 {
                                    if 0x1d5ba <= c && c < 0x1d5d4 {
                                        Some(c - 0x1d5ba + 0x61)
                                    } else {
                                        None
                                    }
                                } else {
                                    if c < 0x1d5ee {
                                        if 0x1d5d4 <= c && c < 0x1d5ee {
                                            Some(c - 0x1d5d4 + 0x41)
                                        } else {
                                            None
                                        }
                                    } else {
                                        if 0x1d5ee <= c && c < 0x1d608 {
                                            Some(c - 0x1d5ee + 0x61)
                                        } else {
                                            None
                                        }
                                    }
                                }
                            }
                        } else {
                            if c < 0x1d656 {
                                if c < 0x1d622 {
                                    if 0x1d608 <= c && c < 0x1d622 {
                                        Some(c - 0x1d608 + 0x41)
                                    } else {
                                        None
                                    }
                                } else {
                                    if c < 0x1d63c {
                                        if 0x1d622 <= c && c < 0x1d63c {
                                            Some(c - 0x1d622 + 0x61)
                                        } else {
                                            None
                                        }
                                    } else {
                                        if 0x1d63c <= c && c < 0x1d656 {
                                            Some(c - 0x1d63c + 0x41)
                                        } else {
                                            None
                                        }
                                    }
                                }
                            } else {
                                if c < 0x1d670 {
                                    if 0x1d656 <= c && c < 0x1d670 {
                                        Some(c - 0x1d656 + 0x61)
                                    } else {
                                        None
                                    }
                                } else {
                                    if c < 0x1d68a {
                                        if 0x1d670 <= c && c < 0x1d68a {
                                            Some(c - 0x1d670 + 0x41)
                                        } else {
                                            None
                                        }
                                    } else {
                                        if 0x1d68a <= c && c < 0x1d6a4 {
                                            Some(c - 0x1d68a + 0x61)
                                        } else {
                                            None
                                        }
                                    }
                                }
                            }
                        }
                    } else {
                        if c < 0x1d6c2 {
                            if c < 0x1d6b9 {
                                if c < 0x1d6a5 {
                                    if c == 0x1d6a4 {
                                        Some(0x131)
                                    } else {
                                        None
                                    }
                                } else {
                                    if c < 0x1d6a8 {
                                        if c == 0x1d6a5 {
                                            Some(0x237)
                                        } else {
                                            None
                                        }
                                    } else {
                                        if 0x1d6a8 <= c && c < 0x1d6b9 {
                                            Some(c - 0x1d6a8 + 0x391)
                                        } else {
                                            None
                                        }
                                    }
                                }
                            } else {
                                if c < 0x1d6ba {
                                    if c == 0x1d6b9 {
                                        Some(0x3f4)
                                    } else {
                                        None
                                    }
                                } else {
                                    if c < 0x1d6c1 {
                                        if 0x1d6ba <= c && c < 0x1d6c1 {
                                            Some(c - 0x1d6ba + 0x3a3)
                                        } else {
                                            None
                                        }
                                    } else {
                                        if c == 0x1d6c1 {
                                            Some(0x2207)
                                        } else {
                                            None
                                        }
                                    }
                                }
                            }
                        } else {
                            if c < 0x1d6dd {
                                if c < 0x1d6db {
                                    if 0x1d6c2 <= c && c < 0x1d6db {
                                        Some(c - 0x1d6c2 + 0x3b1)
                                    } else {
                                        None
                                    }
                                } else {
                                    if c < 0x1d6dc {
                                        if c == 0x1d6db {
                                            Some(0x2202)
                                        } else {
                                            None
                                        }
                                    } else {
                                        if c == 0x1d6dc {
                                            Some(0x3f5)
                                        } else {
                                            None
                                        }
                                    }
                                }
                            } else {
                                if c < 0x1d6de {
                                    if c == 0x1d6dd {
                                        Some(0x3d1)
                                    } else {
                                        None
                                    }
                                } else {
                                    if c < 0x1d6df {
                                        if c == 0x1d6de {
                                            Some(0x3f0)
                                        } else {
                                            None
                                        }
                                    } else {
                                        if c == 0x1d6df {
                                            Some(0x3d5)
                                        } else {
                                            None
                                        }
                                    }
                                }
                            }
                        }
                    }
                } else {
                    if c < 0x1d719 {
                        if c < 0x1d6fb {
                            if c < 0x1d6e2 {
                                if c < 0x1d6e1 {
                                    if c == 0x1d6e0 {
                                        Some(0x3f1)
                                    } else {
                                        None
                                    }
                                } else {
                                    if c == 0x1d6e1 {
                                        Some(0x3d6)
                                    } else {
                                        None
                                    }
                                }
                            } else {
                                if c < 0x1d6f3 {
                                    if 0x1d6e2 <= c && c < 0x1d6f3 {
                                        Some(c - 0x1d6e2 + 0x391)
                                    } else {
                                        None
                                    }
                                } else {
                                    if c < 0x1d6f4 {
                                        if c == 0x1d6f3 {
                                            Some(0x3f4)
                                        } else {
                                            None
                                        }
                                    } else {
                                        if 0x1d6f4 <= c && c < 0x1d6fb {
                                            Some(c - 0x1d6f4 + 0x3a3)
                                        } else {
                                            None
                                        }
                                    }
                                }
                            }
                        } else {
                            if c < 0x1d716 {
                                if c < 0x1d6fc {
                                    if c == 0x1d6fb {
                                        Some(0x2207)
                                    } else {
                                        None
                                    }
                                } else {
                                    if c < 0x1d715 {
                                        if 0x1d6fc <= c && c < 0x1d715 {
                                            Some(c - 0x1d6fc + 0x3b1)
                                        } else {
                                            None
                                        }
                                    } else {
                                        if c == 0x1d715 {
                                            Some(0x2202)
                                        } else {
                                            None
                                        }
                                    }
                                }
                            } else {
                                if c < 0x1d717 {
                                    if c == 0x1d716 {
                                        Some(0x3f5)
                                    } else {
                                        None
                                    }
                                } else {
                                    if c < 0x1d718 {
                                        if c == 0x1d717 {
                                            Some(0x3d1)
                                        } else {
                                            None
                                        }
                                    } else {
                                        if c == 0x1d718 {
                                            Some(0x3f0)
                                        } else {
                                            None
                                        }
                                    }
                                }
                            }
                        }
                    } else {
                        if c < 0x1d735 {
                            if c < 0x1d71c {
                                if c < 0x1d71a {
                                    if c == 0x1d719 {
                                        Some(0x3d5)
                                    } else {
                                        None
                                    }
                                } else {
                                    if c < 0x1d71b {
                                        if c == 0x1d71a {
                                            Some(0x3f1)
                                        } else {
                                            None
                                        }
                                    } else {
                                        if c == 0x1d71b {
                                            Some(0x3d6)
                                        } else {
                                            None
                                        }
                                    }
                                }
                            } else {
                                if c < 0x1d72d {
                                    if 0x1d71c <= c && c < 0x1d72d {
                                        Some(c - 0x1d71c + 0x391)
                                    } else {
                                        None
                                    }
                                } else {
                                    if c < 0x1d72e {
                                        if c == 0x1d72d {
                                            Some(0x3f4)
                                        } else {
                                            None
                                        }
                                    } else {
                                        if 0x1d72e <= c && c < 0x1d735 {
                                            Some(c - 0x1d72e + 0x3a3)
                                        } else {
                                            None
                                        }
                                    }
                                }
                            }
                        } else {
                            if c < 0x1d750 {
                                if c < 0x1d736 {
                                    if c == 0x1d735 {
                                        Some(0x2207)
                                    } else {
                                        None
                                    }
                                } else {
                                    if c < 0x1d74f {
                                        if 0x1d736 <= c && c < 0x1d74f {
                                            Some(c - 0x1d736 + 0x3b1)
                                        } else {
                                            None
                                        }
                                    } else {
                                        if c == 0x1d74f {
                                            Some(0x2202)
                                        } else {
                                            None
                                        }
                                    }
                                }
                            } else {
                                if c < 0x1d751 {
                                    if c == 0x1d750 {
                                        Some(0x3f5)
                                    } else {
                                        None
                                    }
                                } else {
                                    if c < 0x1d752 {
                                        if c == 0x1d751 {
                                            Some(0x3d1)
                                        } else {
                                            None
                                        }
                                    } else {
                                        if c == 0x1d752 {
                                            Some(0x3f0)
                                        } else {
                                            None
                                        }
                                    }
                                }
                            }
                        }
                    }
                }
            } else {
                if c < 0x1d7c6 {
                    if c < 0x1d78c {
                        if c < 0x1d768 {
                            if c < 0x1d755 {
                                if c < 0x1d754 {
                                    if c == 0x1d753 {
                                        Some(0x3d5)
                                    } else {
                                        None
                                    }
                                } else {
                                    if c == 0x1d754 {
                                        Some(0x3f1)
                                    } else {
                                        None
                                    }
                                }
                            } else {
                                if c < 0x1d756 {
                                    if c == 0x1d755 {
                                        Some(0x3d6)
                                    } else {
                                        None
                                    }
                                } else {
                                    if c < 0x1d767 {
                                        if 0x1d756 <= c && c < 0x1d767 {
                                            Some(c - 0x1d756 + 0x391)
                                        } else {
                                            None
                                        }
                                    } else {
                                        if c == 0x1d767 {
                                            Some(0x3f4)
                                        } else {
                                            None
                                        }
                                    }
                                }
                            }
                        } else {
                            if c < 0x1d789 {
                                if c < 0x1d76f {
                                    if 0x1d768 <= c && c < 0x1d76f {
                                        Some(c - 0x1d768 + 0x3a3)
                                    } else {
                                        None
                                    }
                                } else {
                                    if c < 0x1d770 {
                                        if c == 0x1d76f {
                                            Some(0x2207)
                                        } else {
                                            None
                                        }
                                    } else {
                                        if 0x1d770 <= c && c < 0x1d789 {
                                            Some(c - 0x1d770 + 0x3b1)
                                        } else {
                                            None
                                        }
                                    }
                                }
                            } else {
                                if c < 0x1d78a {
                                    if c == 0x1d789 {
                                        Some(0x2202)
                                    } else {
                                        None
                                    }
                                } else {
                                    if c < 0x1d78b {
                                        if c == 0x1d78a {
                                            Some(0x3f5)
                                        } else {
                                            None
                                        }
                                    } else {
                                        if c == 0x1d78b {
                                            Some(0x3d1)
                                        } else {
                                            None
                                        }
                                    }
                                }
                            }
                        }
                    } else {
                        if c < 0x1d7a2 {
                            if c < 0x1d78f {
                                if c < 0x1d78d {
                                    if c == 0x1d78c {
                                        Some(0x3f0)
                                    } else {
                                        None
                                    }
                                } else {
                                    if c < 0x1d78e {
                                        if c == 0x1d78d {
                                            Some(0x3d5)
                                        } else {
                                            None
                                        }
                                    } else {
                                        if c == 0x1d78e {
                                            Some(0x3f1)
                                        } else {
                                            None
                                        }
                                    }
                                }
                            } else {
                                if c < 0x1d790 {
                                    if c == 0x1d78f {
                                        Some(0x3d6)
                                    } else {
                                        None
                                    }
                                } else {
                                    if c < 0x1d7a1 {
                                        if 0x1d790 <= c && c < 0x1d7a1 {
                                            Some(c - 0x1d790 + 0x391)
                                        } else {
                                            None
                                        }
                                    } else {
                                        if c == 0x1d7a1 {
                                            Some(0x3f4)
                                        } else {
                                            None
                                        }
                                    }
                                }
                            }
                        } else {
                            if c < 0x1d7c3 {
                                if c < 0x1d7a9 {
                                    if 0x1d7a2 <= c && c < 0x1d7a9 {
                                        Some(c - 0x1d7a2 + 0x3a3)
                                    } else {
                                        None
                                    }
                                } else {
                                    if c < 0x1d7aa {
                                        if c == 0x1d7a9 {
                                            Some(0x2207)
                                        } else {
                                            None
                                        }
                                    } else {
                                        if 0x1d7aa <= c && c < 0x1d7c3 {
                                            Some(c - 0x1d7aa + 0x3b1)
                                        } else {
                                            None
                                        }
                                    }
                                }
                            } else {
                                if c < 0x1d7c4 {
                                    if c == 0x1d7c3 {
                                        Some(0x2202)
                                    } else {
                                        None
                                    }
                                } else {
                                    if c < 0x1d7c5 {
                                        if c == 0x1d7c4 {
                                            Some(0x3f5)
                                        } else {
                                            None
                                        }
                                    } else {
                                        if c == 0x1d7c5 {
                                            Some(0x3d1)
                                        } else {
                                            None
                                        }
                                    }
                                }
                            }
                        }
                    }
                } else {
                    if c < 0x1ee03 {
                        if c < 0x1d7d8 {
                            if c < 0x1d7c9 {
                                if c < 0x1d7c7 {
                                    if c == 0x1d7c6 {
                                        Some(0x3f0)
                                    } else {
                                        None
                                    }
                                } else {
                                    if c < 0x1d7c8 {
                                        if c == 0x1d7c7 {
                                            Some(0x3d5)
                                        } else {
                                            None
                                        }
                                    } else {
                                        if c == 0x1d7c8 {
                                            Some(0x3f1)
                                        } else {
                                            None
                                        }
                                    }
                                }
                            } else {
                                if c < 0x1d7ca {
                                    if c == 0x1d7c9 {
                                        Some(0x3d6)
                                    } else {
                                        None
                                    }
                                } else {
                                    if c < 0x1d7ce {
                                        if 0x1d7ca <= c && c < 0x1d7cc {
                                            Some(c - 0x1d7ca + 0x3dc)
                                        } else {
                                            None
                                        }
                                    } else {
                                        if 0x1d7ce <= c && c < 0x1d7d8 {
                                            Some(c - 0x1d7ce + 0x30)
                                        } else {
                                            None
                                        }
                                    }
                                }
                            }
                        } else {
                            if c < 0x1d7f6 {
                                if c < 0x1d7e2 {
                                    if 0x1d7d8 <= c && c < 0x1d7e2 {
                                        Some(c - 0x1d7d8 + 0x30)
                                    } else {
                                        None
                                    }
                                } else {
                                    if c < 0x1d7ec {
                                        if 0x1d7e2 <= c && c < 0x1d7ec {
                                            Some(c - 0x1d7e2 + 0x30)
                                        } else {
                                            None
                                        }
                                    } else {
                                        if 0x1d7ec <= c && c < 0x1d7f6 {
                                            Some(c - 0x1d7ec + 0x30)
                                        } else {
                                            None
                                        }
                                    }
                                }
                            } else {
                                if c < 0x1ee00 {
                                    if 0x1d7f6 <= c && c < 0x1d800 {
                                        Some(c - 0x1d7f6 + 0x30)
                                    } else {
                                        None
                                    }
                                } else {
                                    if c < 0x1ee02 {
                                        if 0x1ee00 <= c && c < 0x1ee02 {
                                            Some(c - 0x1ee00 + 0x627)
                                        } else {
                                            None
                                        }
                                    } else {
                                        if c == 0x1ee02 {
                                            Some(0x62c)
                                        } else {
                                            None
                                        }
                                    }
                                }
                            }
                        }
                    } else {
                        if c < 0x1ee0a {
                            if c < 0x1ee07 {
                                if c < 0x1ee05 {
                                    if c == 0x1ee03 {
                                        Some(0x62f)
                                    } else {
                                        None
                                    }
                                } else {
                                    if c < 0x1ee06 {
                                        if c == 0x1ee05 {
                                            Some(0x648)
                                        } else {
                                            None
                                        }
                                    } else {
                                        if c == 0x1ee06 {
                                            Some(0x632)
                                        } else {
                                            None
                                        }
                                    }
                                }
                            } else {
                                if c < 0x1ee08 {
                                    if c == 0x1ee07 {
                                        Some(0x62d)
                                    } else {
                                        None
                                    }
                                } else {
                                    if c < 0x1ee09 {
                                        if c == 0x1ee08 {
                                            Some(0x637)
                                        } else {
                                            None
                                        }
                                    } else {
                                        if c == 0x1ee09 {
                                            Some(0x64a)
                                        } else {
                                            None
                                        }
                                    }
                                }
                            }
                        } else {
                            if c < 0x1ee10 {
                                if c < 0x1ee0e {
                                    if 0x1ee0a <= c && c < 0x1ee0e {
                                        Some(c - 0x1ee0a + 0x643)
                                    } else {
                                        None
                                    }
                                } else {
                                    if c < 0x1ee0f {
                                        if c == 0x1ee0e {
                                            Some(0x633)
                                        } else {
                                            None
                                        }
                                    } else {
                                        if c == 0x1ee0f {
                                            Some(0x639)
                                        } else {
                                            None
                                        }
                                    }
                                }
                            } else {
                                if c < 0x1ee11 {
                                    if c == 0x1ee10 {
                                        Some(0x641)
                                    } else {
                                        None
                                    }
                                } else {
                                    if c < 0x1ee12 {
                                        if c == 0x1ee11 {
                                            Some(0x635)
                                        } else {
                                            None
                                        }
                                    } else {
                                        if c == 0x1ee12 {
                                            Some(0x642)
                                        } else {
                                            None
                                        }
                                    }
                                }
                            }
                        }
                    }
                }
            }
        } else {
            if c < 0x1ee68 {
                if c < 0x1ee34 {
                    if c < 0x1ee1f {
                        if c < 0x1ee19 {
                            if c < 0x1ee15 {
                                if c < 0x1ee14 {
                                    if c == 0x1ee13 {
                                        Some(0x631)
                                    } else {
                                        None
                                    }
                                } else {
                                    if c == 0x1ee14 {
                                        Some(0x634)
                                    } else {
                                        None
                                    }
                                }
                            } else {
                                if c < 0x1ee17 {
                                    if 0x1ee15 <= c && c < 0x1ee17 {
                                        Some(c - 0x1ee15 + 0x62a)
                                    } else {
                                        None
                                    }
                                } else {
                                    if c < 0x1ee18 {
                                        if c == 0x1ee17 {
                                            Some(0x62e)
                                        } else {
                                            None
                                        }
                                    } else {
                                        if c == 0x1ee18 {
                                            Some(0x630)
                                        } else {
                                            None
                                        }
                                    }
                                }
                            }
                        } else {
                            if c < 0x1ee1c {
                                if c < 0x1ee1a {
                                    if c == 0x1ee19 {
                                        Some(0x636)
                                    } else {
                                        None
                                    }
                                } else {
                                    if c < 0x1ee1b {
                                        if c == 0x1ee1a {
                                            Some(0x638)
                                        } else {
                                            None
                                        }
                                    } else {
                                        if c == 0x1ee1b {
                                            Some(0x63a)
                                        } else {
                                            None
                                        }
                                    }
                                }
                            } else {
                                if c < 0x1ee1d {
                                    if c == 0x1ee1c {
                                        Some(0x66e)
                                    } else {
                                        None
                                    }
                                } else {
                                    if c < 0x1ee1e {
                                        if c == 0x1ee1d {
                                            Some(0x6ba)
                                        } else {
                                            None
                                        }
                                    } else {
                                        if c == 0x1ee1e {
                                            Some(0x6a1)
                                        } else {
                                            None
                                        }
                                    }
                                }
                            }
                        }
                    } else {
                        if c < 0x1ee2a {
                            if c < 0x1ee24 {
                                if c < 0x1ee21 {
                                    if c == 0x1ee1f {
                                        Some(0x66f)
                                    } else {
                                        None
                                    }
                                } else {
                                    if c < 0x1ee22 {
                                        if c == 0x1ee21 {
                                            Some(0x628)
                                        } else {
                                            None
                                        }
                                    } else {
                                        if c == 0x1ee22 {
                                            Some(0x62c)
                                        } else {
                                            None
                                        }
                                    }
                                }
                            } else {
                                if c < 0x1ee27 {
                                    if c == 0x1ee24 {
                                        Some(0x647)
                                    } else {
                                        None
                                    }
                                } else {
                                    if c < 0x1ee29 {
                                        if c == 0x1ee27 {
                                            Some(0x62d)
                                        } else {
                                            None
                                        }
                                    } else {
                                        if c == 0x1ee29 {
                                            Some(0x64a)
                                        } else {
                                            None
                                        }
                                    }
                                }
                            }
                        } else {
                            if c < 0x1ee30 {
                                if c < 0x1ee2e {
                                    if 0x1ee2a <= c && c < 0x1ee2e {
                                        Some(c - 0x1ee2a + 0x643)
                                    } else {
                                        None
                                    }
                                } else {
                                    if c < 0x1ee2f {
                                        if c == 0x1ee2e {
                                            Some(0x633)
                                        } else {
                                            None
                                        }
                                    } else {
                                        if c == 0x1ee2f {
                                            Some(0x639)
                                        } else {
                                            None
                                        }
                                    }
                                }
                            } else {
                                if c < 0x1ee31 {
                                    if c == 0x1ee30 {
                                        Some(0x641)
                                    } else {
                                        None
                                    }
                                } else {
                                    if c < 0x1ee32 {
                                        if c == 0x1ee31 {
                                            Some(0x635)
                                        } else {
                                            None
                                        }
                                    } else {
                                        if c == 0x1ee32 {
                                            Some(0x642)
                                        } else {
                                            None
                                        }
                                    }
                                }
                            }
                        }
                    }
                } else {
                    if c < 0x1ee51 {
                        if c < 0x1ee47 {
                            if c < 0x1ee39 {
                                if c < 0x1ee35 {
                                    if c == 0x1ee34 {
                                        Some(0x634)
                                    } else {
                                        None
                                    }
                                } else {
                                    if c < 0x1ee37 {
                                        if 0x1ee35 <= c && c < 0x1ee37 {
                                            Some(c - 0x1ee35 + 0x62a)
                                        } else {
                                            None
                                        }
                                    } else {
                                        if c == 0x1ee37 {
                                            Some(0x62e)
                                        } else {
                                            None
                                        }
                                    }
                                }
                            } else {
                                if c < 0x1ee3b {
                                    if c == 0x1ee39 {
                                        Some(0x636)
                                    } else {
                                        None
                                    }
                                } else {
                                    if c < 0x1ee42 {
                                        if c == 0x1ee3b {
                                            Some(0x63a)
                                        } else {
                                            None
                                        }
                                    } else {
                                        if c == 0x1ee42 {
                                            Some(0x62c)
                                        } else {
                                            None
                                        }
                                    }
                                }
                            }
                        } else {
                            if c < 0x1ee4d {
                                if c < 0x1ee49 {
                                    if c == 0x1ee47 {
                                        Some(0x62d)
                                    } else {
                                        None
                                    }
                                } else {
                                    if c < 0x1ee4b {
                                        if c == 0x1ee49 {
                                            Some(0x64a)
                                        } else {
                                            None
                                        }
                                    } else {
                                        if c == 0x1ee4b {
                                            Some(0x644)
                                        } else {
                                            None
                                        }
                                    }
                                }
                            } else {
                                if c < 0x1ee4e {
                                    if c == 0x1ee4d {
                                        Some(0x646)
                                    } else {
                                        None
                                    }
                                } else {
                                    if c < 0x1ee4f {
                                        if c == 0x1ee4e {
                                            Some(0x633)
                                        } else {
                                            None
                                        }
                                    } else {
                                        if c == 0x1ee4f {
                                            Some(0x639)
                                        } else {
                                            None
                                        }
                                    }
                                }
                            }
                        }
                    } else {
                        if c < 0x1ee5d {
                            if c < 0x1ee57 {
                                if c < 0x1ee52 {
                                    if c == 0x1ee51 {
                                        Some(0x635)
                                    } else {
                                        None
                                    }
                                } else {
                                    if c < 0x1ee54 {
                                        if c == 0x1ee52 {
                                            Some(0x642)
                                        } else {
                                            None
                                        }
                                    } else {
                                        if c == 0x1ee54 {
                                            Some(0x634)
                                        } else {
                                            None
                                        }
                                    }
                                }
                            } else {
                                if c < 0x1ee59 {
                                    if c == 0x1ee57 {
                                        Some(0x62e)
                                    } else {
                                        None
                                    }
                                } else {
                                    if c < 0x1ee5b {
                                        if c == 0x1ee59 {
                                            Some(0x636)
                                        } else {
                                            None
                                        }
                                    } else {
                                        if c == 0x1ee5b {
                                            Some(0x63a)
                                        } else {
                                            None
                                        }
                                    }
                                }
                            }
                        } else {
                            if c < 0x1ee62 {
                                if c < 0x1ee5f {
                                    if c == 0x1ee5d {
                                        Some(0x6ba)
                                    } else {
                                        None
                                    }
                                } else {
                                    if c < 0x1ee61 {
                                        if c == 0x1ee5f {
                                            Some(0x66f)
                                        } else {
                                            None
                                        }
                                    } else {
                                        if c == 0x1ee61 {
                                            Some(0x628)
                                        } else {
                                            None
                                        }
                                    }
                                }
                            } else {
                                if c < 0x1ee64 {
                                    if c == 0x1ee62 {
                                        Some(0x62c)
                                    } else {
                                        None
                                    }
                                } else {
                                    if c < 0x1ee67 {
                                        if c == 0x1ee64 {
                                            Some(0x647)
                                        } else {
                                            None
                                        }
                                    } else {
                                        if c == 0x1ee67 {
                                            Some(0x62d)
                                        } else {
                                            None
                                        }
                                    }
                                }
                            }
                        }
                    }
                }
            } else {
                if c < 0x1ee88 {
                    if c < 0x1ee77 {
                        if c < 0x1ee6f {
                            if c < 0x1ee6a {
                                if c < 0x1ee69 {
                                    if c == 0x1ee68 {
                                        Some(0x637)
                                    } else {
                                        None
                                    }
                                } else {
                                    if c == 0x1ee69 {
                                        Some(0x64a)
                                    } else {
                                        None
                                    }
                                }
                            } else {
                                if c < 0x1ee6c {
                                    if c == 0x1ee6a {
                                        Some(0x643)
                                    } else {
                                        None
                                    }
                                } else {
                                    if c < 0x1ee6e {
                                        if 0x1ee6c <= c && c < 0x1ee6e {
                                            Some(c - 0x1ee6c + 0x645)
                                        } else {
                                            None
                                        }
                                    } else {
                                        if c == 0x1ee6e {
                                            Some(0x633)
                                        } else {
                                            None
                                        }
                                    }
                                }
                            }
                        } else {
                            if c < 0x1ee72 {
                                if c < 0x1ee70 {
                                    if c == 0x1ee6f {
                                        Some(0x639)
                                    } else {
                                        None
                                    }
                                } else {
                                    if c < 0x1ee71 {
                                        if c == 0x1ee70 {
                                            Some(0x641)
                                        } else {
                                            None
                                        }
                                    } else {
                                        if c == 0x1ee71 {
                                            Some(0x635)
                                        } else {
                                            None
                                        }
                                    }
                                }
                            } else {
                                if c < 0x1ee74 {
                                    if c == 0x1ee72 {
                                        Some(0x642)
                                    } else {
                                        None
                                    }
                                } else {
                                    if c < 0x1ee75 {
                                        if c == 0x1ee74 {
                                            Some(0x634)
                                        } else {
                                            None
                                        }
                                    } else {
                                        if 0x1ee75 <= c && c < 0x1ee77 {
                                            Some(c - 0x1ee75 + 0x62a)
                                        } else {
                                            None
                                        }
                                    }
                                }
                            }
                        }
                    } else {
                        if c < 0x1ee80 {
                            if c < 0x1ee7b {
                                if c < 0x1ee79 {
                                    if c == 0x1ee77 {
                                        Some(0x62e)
                                    } else {
                                        None
                                    }
                                } else {
                                    if c < 0x1ee7a {
                                        if c == 0x1ee79 {
                                            Some(0x636)
                                        } else {
                                            None
                                        }
                                    } else {
                                        if c == 0x1ee7a {
                                            Some(0x638)
                                        } else {
                                            None
                                        }
                                    }
                                }
                            } else {
                                if c < 0x1ee7c {
                                    if c == 0x1ee7b {
                                        Some(0x63a)
                                    } else {
                                        None
                                    }
                                } else {
                                    if c < 0x1ee7e {
                                        if c == 0x1ee7c {
                                            Some(0x66e)
                                        } else {
                                            None
                                        }
                                    } else {
                                        if c == 0x1ee7e {
                                            Some(0x6a1)
                                        } else {
                                            None
                                        }
                                    }
                                }
                            }
                        } else {
                            if c < 0x1ee84 {
                                if c < 0x1ee82 {
                                    if 0x1ee80 <= c && c < 0x1ee82 {
                                        Some(c - 0x1ee80 + 0x627)
                                    } else {
                                        None
                                    }
                                } else {
                                    if c < 0x1ee83 {
                                        if c == 0x1ee82 {
                                            Some(0x62c)
                                        } else {
                                            None
                                        }
                                    } else {
                                        if c == 0x1ee83 {
                                            Some(0x62f)
                                        } else {
                                            None
                                        }
                                    }
                                }
                            } else {
                                if c < 0x1ee86 {
                                    if 0x1ee84 <= c && c < 0x1ee86 {
                                        Some(c - 0x1ee84 + 0x647)
                                    } else {
                                        None
                                    }
                                } else {
                                    if c < 0x1ee87 {
                                        if c == 0x1ee86 {
                                            Some(0x632)
                                        } else {
                                            None
                                        }
                                    } else {
                                        if c == 0x1ee87 {
                                            Some(0x62d)
                                        } else {
                                            None
                                        }
                                    }
                                }
                            }
                        }
                    }
                } else {
                    if c < 0x1ee98 {
                        if c < 0x1ee91 {
                            if c < 0x1ee8e {
                                if c < 0x1ee89 {
                                    if c == 0x1ee88 {
                                        Some(0x637)
                                    } else {
                                        None
                                    }
                                } else {
                                    if c < 0x1ee8b {
                                        if c == 0x1ee89 {
                                            Some(0x64a)
                                        } else {
                                            None
                                        }
                                    } else {
                                        if 0x1ee8b <= c && c < 0x1ee8e {
                                            Some(c - 0x1ee8b + 0x644)
                                        } else {
                                            None
                                        }
                                    }
                                }
                            } else {
                                if c < 0x1ee8f {
                                    if c == 0x1ee8e {
                                        Some(0x633)
                                    } else {
                                        None
                                    }
                                } else {
                                    if c < 0x1ee90 {
                                        if c == 0x1ee8f {
                                            Some(0x639)
                                        } else {
                                            None
                                        }
                                    } else {
                                        if c == 0x1ee90 {
                                            Some(0x641)
                                        } else {
                                            None
                                        }
                                    }
                                }
                            }
                        } else {
                            if c < 0x1ee94 {
                                if c < 0x1ee92 {
                                    if c == 0x1ee91 {
                                        Some(0x635)
                                    } else {
                                        None
                                    }
                                } else {
                                    if c < 0x1ee93 {
                                        if c == 0x1ee92 {
                                            Some(0x642)
                                        } else {
                                            None
                                        }
                                    } else {
                                        if c == 0x1ee93 {
                                            Some(0x631)
                                        } else {
                                            None
                                        }
                                    }
                                }
                            } else {
                                if c < 0x1ee95 {
                                    if c == 0x1ee94 {
                                        Some(0x634)
                                    } else {
                                        None
                                    }
                                } else {
                                    if c < 0x1ee97 {
                                        if 0x1ee95 <= c && c < 0x1ee97 {
                                            Some(c - 0x1ee95 + 0x62a)
                                        } else {
                                            None
                                        }
                                    } else {
                                        if c == 0x1ee97 {
                                            Some(0x62e)
                                        } else {
                                            None
                                        }
                                    }
                                }
                            }
                        }
                    } else {
                        if c < 0x1f110 {
                            if c < 0x1ee9b {
                                if c < 0x1ee99 {
                                    if c == 0x1ee98 {
                                        Some(0x630)
                                    } else {
                                        None
                                    }
                                } else {
                                    if c < 0x1ee9a {
                                        if c == 0x1ee99 {
                                            Some(0x636)
                                        } else {
                                            None
                                        }
                                    } else {
                                        if c == 0x1ee9a {
                                            Some(0x638)
                                        } else {
                                            None
                                        }
                                    }
                                }
                            } else {
                                if c < 0x1f100 {
                                    if c == 0x1ee9b {
                                        Some(0x63a)
                                    } else {
                                        None
                                    }
                                } else {
                                    if c < 0x1f101 {
                                        if c == 0x1f100 {
                                            Some(0x30)
                                        } else {
                                            None
                                        }
                                    } else {
                                        if 0x1f101 <= c && c < 0x1f10b {
                                            Some(c - 0x1f101 + 0x30)
                                        } else {
                                            None
                                        }
                                    }
                                }
                            }
                        } else {
                            if c < 0x1f170 {
                                if c < 0x1f130 {
                                    if 0x1f110 <= c && c < 0x1f12a {
                                        Some(c - 0x1f110 + 0x41)
                                    } else {
                                        None
                                    }
                                } else {
                                    if c < 0x1f150 {
                                        if 0x1f130 <= c && c < 0x1f14a {
                                            Some(c - 0x1f130 + 0x41)
                                        } else {
                                            None
                                        }
                                    } else {
                                        if 0x1f150 <= c && c < 0x1f16a {
                                            Some(c - 0x1f150 + 0x41)
                                        } else {
                                            None
                                        }
                                    }
                                }
                            } else {
                                if c < 0x1f1e6 {
                                    if 0x1f170 <= c && c < 0x1f18a {
                                        Some(c - 0x1f170 + 0x41)
                                    } else {
                                        None
                                    }
                                } else {
                                    if c < 0x1fbf0 {
                                        if 0x1f1e6 <= c && c < 0x1f200 {
                                            Some(c - 0x1f1e6 + 0x41)
                                        } else {
                                            None
                                        }
                                    } else {
                                        if 0x1fbf0 <= c && c < 0x1fbfa {
                                            Some(c - 0x1fbf0 + 0x30)
                                        } else {
                                            None
                                        }
                                    }
                                }
                            }
                        }
                    }
                }
            }
        }
    }
}

/// Arabic mathematical letters.
pub open spec fn arabic_mathematical_code(k: int) -> Option<int> {
    if 0x627 <= k < 0x629 {
        Some(k - 0x627 + 0x1ee00)
    } else if 0x62a <= k < 0x62c {
        Some(k - 0x62a + 0x1ee15)
    } else if k == 0x62c {
        Some(0x1ee02)
    } else if k == 0x62d {
        Some(0x1ee07)
    } else if k == 0x62e {
        Some(0x1ee17)
    } else if k == 0x62f {
        Some(0x1ee03)
    } else if k == 0x630 {
        Some(0x1ee18)
    } else if k == 0x631 {
        Some(0x1ee13)
    } else if k == 0x632 {
        Some(0x1ee06)
    } else if k == 0x633 {
        Some(0x1ee0e)
    } else if k == 0x634 {
        Some(0x1ee14)
    } else if k == 0x635 {
        Some(0x1ee11)
    } else if k == 0x636 {
        Some(0x1ee19)
    } else if k == 0x637 {
        Some(0x1ee08)
    } else if k == 0x638 {
        Some(0x1ee1a)
    } else if k == 0x639 {
        Some(0x1ee0f)
    } else if k == 0x63a {
        Some(0x1ee1b)
    } else if k == 0x641 {
        Some(0x1ee10)
    } else if k == 0x642 {
        Some(0x1ee12)
    } else if 0x643 <= k < 0x647 {
        Some(k - 0x643 + 0x1ee0a)
    } else if k == 0x648 {
        Some(0x1ee05)
    } else if k == 0x64a {
        Some(0x1ee09)
    } else if k == 0x66e {
        Some(0x1ee1c)
    } else if k == 0x66f {
        Some(0x1ee1f)
    } else if k == 0x6a1 {
        Some(0x1ee1e)
    } else if k == 0x6ba {
        Some(0x1ee1d)
    } else {
        None
    }
}

fn arabic_mathematical_lookup(k: u32) -> (r: Option<u32>)
    ensures
        widen(r) == arabic_mathematical_code(k as int),
{
    if 0x627 <= k && k < 0x629 {
        Some(k - 0x627 + 0x1ee00)
    } else if 0x62a <= k && k < 0x62c {
        Some(k - 0x62a + 0x1ee15)
    } else if k == 0x62c {
        Some(0x1ee02)
    } else if k == 0x62d {
        Some(0x1ee07)
    } else if k == 0x62e {
        Some(0x1ee17)
    } else if k == 0x62f {
        Some(0x1ee03)
    } else if k == 0x630 {
        Some(0x1ee18)
    } else if k == 0x631 {
        Some(0x1ee13)
    } else if k == 0x632 {
        Some(0x1ee06)
    } else if k == 0x633 {
        Some(0x1ee0e)
    } else if k == 0x634 {
        Some(0x1ee14)
    } else if k == 0x635 {
        Some(0x1ee11)
    } else if k == 0x636 {
        Some(0x1ee19)
    } else if k == 0x637 {
        Some(0x1ee08)
    } else if k == 0x638 {
        Some(0x1ee1a)
    } else if k == 0x639 {
        Some(0x1ee0f)
    } else if k == 0x63a {
        Some(0x1ee1b)
    } else if k == 0x641 {
        Some(0x1ee10)
    } else if k == 0x642 {
        Some(0x1ee12)
    } else if 0x643 <= k && k < 0x647 {
        Some(k - 0x643 + 0x1ee0a)
    } else if k == 0x648 {
        Some(0x1ee05)
    } else if k == 0x64a {
        Some(0x1ee09)
    } else if k == 0x66e {
        Some(0x1ee1c)
    } else if k == 0x66f {
        Some(0x1ee1f)
    } else if k == 0x6a1 {
        Some(0x1ee1e)
    } else if k == 0x6ba {
        Some(0x1ee1d)
    } else {
        None
    }
}

/// The keys of this table are plain, and each value is a scalar whose plain form is its key.
proof fn arabic_mathematical_agrees(k: int)
    ensures
        arabic_mathematical_code(k) matches Some(s) ==> plain_code(k) == Some(k) && plain_code(s) == Some(k)
            && is_scalar(s),
{
}

/// Arabic mathematical initial letters.
pub open spec fn arabic_mathematical_initial_code(k: int) -> Option<int> {
    if k == 0x628 {
        Some(0x1ee21)
    } else if 0x62a <= k < 0x62c {
        Some(k - 0x62a + 0x1ee35)
    } else if k == 0x62c {
        Some(0x1ee22)
    } else if k == 0x62d {
        Some(0x1ee27)
    } else if k == 0x62e {
        Some(0x1ee37)
    } else if k == 0x633 {
        Some(0x1ee2e)
    } else if k == 0x634 {
        Some(0x1ee34)
    } else if k == 0x635 {
        Some(0x1ee31)
    } else if k == 0x636 {
        Some(0x1ee39)
    } else if k == 0x639 {
        Some(0x1ee2f)
    } else if k == 0x63a {
        Some(0x1ee3b)
    } else if k == 0x641 {
        Some(0x1ee30)
    } else if k == 0x642 {
        Some(0x1ee32)
    } else if 0x643 <= k < 0x647 {
        Some(k - 0x643 + 0x1ee2a)
    } else if k == 0x647 {
        Some(0x1ee24)
    } else if k == 0x64a {
        Some(0x1ee29)
    } else {
        None
    }
}

fn arabic_mathematical_initial_lookup(k: u32) -> (r: Option<u32>)
    ensures
        widen(r) == arabic_mathematical_initial_code(k as int),
{
    if k == 0x628 {
        Some(0x1ee21)
    } else if 0x62a <= k && k < 0x62c {
        Some(k - 0x62a + 0x1ee35)
    } else if k == 0x62c {
        Some(0x1ee22)
    } else if k == 0x62d {
        Some(0x1ee27)
    } else if k == 0x62e {
        Some(0x1ee37)
    } else if k == 0x633 {
        Some(0x1ee2e)
    } else if k == 0x634 {
        Some(0x1ee34)
    } else if k == 0x635 {
        Some(0x1ee31)
    } else if k == 0x636 {
        Some(0x1ee39)
    } else if k == 0x639 {
        Some(0x1ee2f)
    } else if k == 0x63a {
        Some(0x1ee3b)
    } else if k == 0x641 {
        Some(0x1ee30)
    } else if k == 0x642 {
        Some(0x1ee32)
    } else if 0x643 <= k && k < 0x647 {
        Some(k - 0x643 + 0x1ee2a)
    } else if k == 0x647 {
        Some(0x1ee24)
    } else if k == 0x64a {
        Some(0x1ee29)
    } else {
        None
    }
}

/// The keys of this table are plain, and each value is a scalar whose plain form is its key.
proof fn arabic_mathematical_initial_agrees(k: int)
    ensures
        arabic_mathematical_initial_code(k) matches Some(s) ==> plain_code(k) == Some(k) && plain_code(s) == Some(k)
            && is_scalar(s),
{
}

/// Mathematical bold letters, digits and Greek.
pub open spec fn bold_code(k: int) -> Option<int> {
    if 0x30 <= k < 0x3a {
        Some(k - 0x30 + 0x1d7ce)
    } else if 0x41 <= k < 0x5b {
        Some(k - 0x41 + 0x1d400)
    } else if 0x61 <= k < 0x7b {
        Some(k - 0x61 + 0x1d41a)
    } else if 0x391 <= k < 0x3a2 {
        Some(k - 0x391 + 0x1d6a8)
    } else if 0x3a3 <= k < 0x3aa {
        Some(k - 0x3a3 + 0x1d6ba)
    } else if 0x3b1 <= k < 0x3ca {
        Some(k - 0x3b1 + 0x1d6c2)
    } else if k == 0x3d1 {
        Some(0x1d6dd)
    } else if k == 0x3d5 {
        Some(0x1d6df)
    } else if k == 0x3d6 {
        Some(0x1d6e1)
    } else if 0x3dc <= k < 0x3de {
        Some(k - 0x3dc + 0x1d7ca)
    } else if k == 0x3f0 {
        Some(0x1d6de)
    } else if k == 0x3f1 {
        Some(0x1d6e0)
    } else if k == 0x3f4 {
        Some(0x1d6b9)
    } else if k == 0x3f5 {
        Some(0x1d6dc)
    } else if k == 0x2202 {
        Some(0x1d6db)
    } else if k == 0x2207 {
        Some(0x1d6c1)
    } else {
        None
    }
}

fn bold_lookup(k: u32) -> (r: Option<u32>)
    ensures
        widen(r) == bold_code(k as int),
{
    if 0x30 <= k && k < 0x3a {
        Some(k - 0x30 + 0x1d7ce)
    } else if 0x41 <= k && k < 0x5b {
        Some(k - 0x41 + 0x1d400)
    } else if 0x61 <= k && k < 0x7b {
        Some(k - 0x61 + 0x1d41a)
    } else if 0x391 <= k && k < 0x3a2 {
        Some(k - 0x391 + 0x1d6a8)
    } else if 0x3a3 <= k && k < 0x3aa {
        Some(k - 0x3a3 + 0x1d6ba)
    } else if 0x3b1 <= k && k < 0x3ca {
        Some(k - 0x3b1 + 0x1d6c2)
    } else if k == 0x3d1 {
        Some(0x1d6dd)
    } else if k == 0x3d5 {
        Some(0x1d6df)
    } else if k == 0x3d6 {
        Some(0x1d6e1)
    } else if 0x3dc <= k && k < 0x3de {
        Some(k - 0x3dc + 0x1d7ca)
    } else if k == 0x3f0 {
        Some(0x1d6de)
    } else if k == 0x3f1 {
        Some(0x1d6e0)
    } else if k == 0x3f4 {
        Some(0x1d6b9)
    } else if k == 0x3f5 {
        Some(0x1d6dc)
    } else if k == 0x2202 {
        Some(0x1d6db)
    } else if k == 0x2207 {
        Some(0x1d6c1)
    } else {
        None
    }
}

/// The keys of this table are plain, and each value is a scalar whose plain form is its key.
proof fn bold_agrees(k: int)
    ensures
        bold_code(k) matches Some(s) ==> plain_code(k) == Some(k) && plain_code(s) == Some(k)
            && is_scalar(s),
{
}

/// Mathematical bold italic letters and Greek.
pub open spec fn bold_italic_code(k: int) -> Option<int> {
    if 0x41 <= k < 0x5b {
        Some(k - 0x41 + 0x1d468)
    } else if 0x61 <= k < 0x7b {
        Some(k - 0x61 + 0x1d482)
    } else if 0x391 <= k < 0x3a2 {
        Some(k - 0x391 + 0x1d71c)
    } else if 0x3a3 <= k < 0x3aa {
        Some(k - 0x3a3 + 0x1d72e)
    } else if 0x3b1 <= k < 0x3ca {
        Some(k - 0x3b1 + 0x1d736)
    } else if k == 0x3d1 {
        Some(0x1d751)
    } else if k == 0x3d5 {
        Some(0x1d753)
    } else if k == 0x3d6 {
        Some(0x1d755)
    } else if k == 0x3f0 {
        Some(0x1d752)
    } else if k == 0x3f1 {
        Some(0x1d754)
    } else if k == 0x3f4 {
        Some(0x1d72d)
    } else if k == 0x3f5 {
        Some(0x1d750)
    } else if k == 0x2202 {
        Some(0x1d74f)
    } else if k == 0x2207 {
        Some(0x1d735)
    } else {
        None
    }
}

fn bold_italic_lookup(k: u32) -> (r: Option<u32>)
    ensures
        widen(r) == bold_italic_code(k as int),
{
    if 0x41 <= k && k < 0x5b {
        Some(k - 0x41 + 0x1d468)
    } else if 0x61 <= k && k < 0x7b {
        Some(k - 0x61 + 0x1d482)
    } else if 0x391 <= k && k < 0x3a2 {
        Some(k - 0x391 + 0x1d71c)
    } else if 0x3a3 <= k && k < 0x3aa {
        Some(k - 0x3a3 + 0x1d72e)
    } else if 0x3b1 <= k && k < 0x3ca {
        Some(k - 0x3b1 + 0x1d736)
    } else if k == 0x3d1 {
        Some(0x1d751)
    } else if k == 0x3d5 {
        Some(0x1d753)
    } else if k == 0x3d6 {
        Some(0x1d755)
    } else if k == 0x3f0 {
        Some(0x1d752)
    } else if k == 0x3f1 {
        Some(0x1d754)
    } else if k == 0x3f4 {
        Some(0x1d72d)
    } else if k == 0x3f5 {
        Some(0x1d750)
    } else if k == 0x2202 {
        Some(0x1d74f)
    } else if k == 0x2207 {
        Some(0x1d735)
    } else {
        None
    }
}

/// The keys of this table are plain, and each value is a scalar whose plain form is its key.
proof fn bold_italic_agrees(k: int)
    ensures
        bold_italic_code(k) matches Some(s) ==> plain_code(k) == Some(k) && plain_code(s) == Some(k)
            && is_scalar(s),
{
}

/// Mathematical bold Fraktur letters.
pub open spec fn bold_fraktur_code(k: int) -> Option<int> {
    if 0x41 <= k < 0x5b {
        Some(k - 0x41 + 0x1d56c)
    } else if 0x61 <= k < 0x7b {
        Some(k - 0x61 + 0x1d586)
    } else {
        None
    }
}

fn bold_fraktur_lookup(k: u32) -> (r: Option<u32>)
    ensures
        widen(r) == bold_fraktur_code(k as int),
{
    if 0x41 <= k && k < 0x5b {
        Some(k - 0x41 + 0x1d56c)
    } else if 0x61 <= k && k < 0x7b {
        Some(k - 0x61 + 0x1d586)
    } else {
        None
    }
}

/// The keys of this table are plain, and each value is a scalar whose plain form is its key.
proof fn bold_fraktur_agrees(k: int)
    ensures
        bold_fraktur_code(k) matches Some(s) ==> plain_code(k) == Some(k) && plain_code(s) == Some(k)
            && is_scalar(s),
{
}

/// Mathematical bold script letters.
pub open spec fn bold_script_code(k: int) -> Option<int> {
    if 0x41 <= k < 0x5b {
        Some(k - 0x41 + 0x1d4d0)
    } else if 0x61 <= k < 0x7b {
        Some(k - 0x61 + 0x1d4ea)
    } else {
        None
    }
}

fn bold_script_lookup(k: u32) -> (r: Option<u32>)
    ensures
        widen(r) == bold_script_code(k as int),
{
    if 0x41 <= k && k < 0x5b {
        Some(k - 0x41 + 0x1d4d0)
    } else if 0x61 <= k && k < 0x7b {
        Some(k - 0x61 + 0x1d4ea)
    } else {
        None
    }
}

/// The keys of this table are plain, and each value is a scalar whose plain form is its key.
proof fn bold_script_agrees(k: int)
    ensures
        bold_script_code(k) matches Some(s) ==> plain_code(k) == Some(k) && plain_code(s) == Some(k)
            && is_scalar(s),
{
}

/// Circled letters and digits.
pub open spec fn circled_code(k: int) -> Option<int> {
    if k == 0x30 {
        Some(0x24ea)
    } else if 0x31 <= k < 0x3a {
        Some(k - 0x31 + 0x2460)
    } else if 0x41 <= k < 0x5b {
        Some(k - 0x41 + 0x24b6)
    } else if 0x61 <= k < 0x7b {
        Some(k - 0x61 + 0x24d0)
    } else {
        None
    }
}

fn circled_lookup(k: u32) -> (r: Option<u32>)
    ensures
        widen(r) == circled_code(k as int),
{
    if k == 0x30 {
        Some(0x24ea)
    } else if 0x31 <= k && k < 0x3a {
        Some(k - 0x31 + 0x2460)
    } else if 0x41 <= k && k < 0x5b {
        Some(k - 0x41 + 0x24b6)
    } else if 0x61 <= k && k < 0x7b {
        Some(k - 0x61 + 0x24d0)
    } else {
        None
    }
}

/// The keys of this table are plain, and each value is a scalar whose plain form is its key.
proof fn circled_agrees(k: int)
    ensures
        circled_code(k) matches Some(s) ==> plain_code(k) == Some(k) && plain_code(s) == Some(k)
            && is_scalar(s),
{
}

/// Digits followed by a comma.
pub open spec fn comma_code(k: int) -> Option<int> {
    if 0x30 <= k < 0x3a {
        Some(k - 0x30 + 0x1f101)
    } else {
        None
    }
}

fn comma_lookup(k: u32) -> (r: Option<u32>)
    ensures
        widen(r) == comma_code(k as int),
{
    if 0x30 <= k && k < 0x3a {
        Some(k - 0x30 + 0x1f101)
    } else {
        None
    }
}

/// The keys of this table are plain, and each value is a scalar whose plain form is its key.
proof fn comma_agrees(k: int)
    ensures
        comma_code(k) matches Some(s) ==> plain_code(k) == Some(k) && plain_code(s) == Some(k)
            && is_scalar(s),
{
}

/// Double-struck letters, digits and symbols.
pub open spec fn double_struck_code(k: int) -> Option<int> {
    if 0x30 <= k < 0x3a {
        Some(k - 0x30 + 0x1d7d8)
    } else if 0x41 <= k < 0x43 {
        Some(k - 0x41 + 0x1d538)
    } else if k == 0x43 {
        Some(0x2102)
    } else if 0x44 <= k < 0x48 {
        Some(k - 0x44 + 0x1d53b)
    } else if k == 0x48 {
        Some(0x210d)
    } else if 0x49 <= k < 0x4e {
        Some(k - 0x49 + 0x1d540)
    } else if k == 0x4e {
        Some(0x2115)
    } else if k == 0x4f {
        Some(0x1d546)
    } else if 0x50 <= k < 0x52 {
        Some(k - 0x50 + 0x2119)
    } else if k == 0x52 {
        Some(0x211d)
    } else if 0x53 <= k < 0x5a {
        Some(k - 0x53 + 0x1d54a)
    } else if k == 0x5a {
        Some(0x2124)
    } else if 0x61 <= k < 0x7b {
        Some(k - 0x61 + 0x1d552)
    } else if k == 0x393 {
        Some(0x213e)
    } else if k == 0x3a0 {
        Some(0x213f)
    } else if k == 0x3b3 {
        Some(0x213d)
    } else if k == 0x3c0 {
        Some(0x213c)
    } else if k == 0x2211 {
        Some(0x2140)
    } else {
        None
    }
}

fn double_struck_lookup(k: u32) -> (r: Option<u32>)
    ensures
        widen(r) == double_struck_code(k as int),
{
    if 0x30 <= k && k < 0x3a {
        Some(k - 0x30 + 0x1d7d8)
    } else if 0x41 <= k && k < 0x43 {
        Some(k - 0x41 + 0x1d538)
    } else if k == 0x43 {
        Some(0x2102)
    } else if 0x44 <= k && k < 0x48 {
        Some(k - 0x44 + 0x1d53b)
    } else if k == 0x48 {
        Some(0x210d)
    } else if 0x49 <= k && k < 0x4e {
        Some(k - 0x49 + 0x1d540)
    } else if k == 0x4e {
        Some(0x2115)
    } else if k == 0x4f {
        Some(0x1d546)
    } else if 0x50 <= k && k < 0x52 {
        Some(k - 0x50 + 0x2119)
    } else if k == 0x52 {
        Some(0x211d)
    } else if 0x53 <= k && k < 0x5a {
        Some(k - 0x53 + 0x1d54a)
    } else if k == 0x5a {
        Some(0x2124)
    } else if 0x61 <= k && k < 0x7b {
        Some(k - 0x61 + 0x1d552)
    } else if k == 0x393 {
        Some(0x213e)
    } else if k == 0x3a0 {
        Some(0x213f)
    } else if k == 0x3b3 {
        Some(0x213d)
    } else if k == 0x3c0 {
        Some(0x213c)
    } else if k == 0x2211 {
        Some(0x2140)
    } else {
        None
    }
}

/// The keys of this table are plain, and each value is a scalar whose plain form is its key.
proof fn double_struck_agrees(k: int)
    ensures
        double_struck_code(k) matches Some(s) ==> plain_code(k) == Some(k) && plain_code(s) == Some(k)
            && is_scalar(s),
{
}

/// Double-struck italic letters.
pub open spec fn double_struck_italic_code(k: int) -> Option<int> {
    if k == 0x44 {
        Some(0x2145)
    } else if 0x64 <= k < 0x66 {
        Some(k - 0x64 + 0x2146)
    } else if 0x69 <= k < 0x6b {
        Some(k - 0x69 + 0x2148)
    } else {
        None
    }
}

fn double_struck_italic_lookup(k: u32) -> (r: Option<u32>)
    ensures
        widen(r) == double_struck_italic_code(k as int),
{
    if k == 0x44 {
        Some(0x2145)
    } else if 0x64 <= k && k < 0x66 {
        Some(k - 0x64 + 0x2146)
    } else if 0x69 <= k && k < 0x6b {
        Some(k - 0x69 + 0x2148)
    } else {
        None
    }
}

/// The keys of this table are plain, and each value is a scalar whose plain form is its key.
proof fn double_struck_italic_agrees(k: int)
    ensures
        double_struck_italic_code(k) matches Some(s) ==> plain_code(k) == Some(k) && plain_code(s) == Some(k)
            && is_scalar(s),
{
}

/// Fraktur (black-letter) letters.
pub open spec fn fraktur_code(k: int) -> Option<int> {
    if 0x41 <= k < 0x43 {
        Some(k - 0x41 + 0x1d504)
    } else if k == 0x43 {
        Some(0x212d)
    } else if 0x44 <= k < 0x48 {
        Some(k - 0x44 + 0x1d507)
    } else if k == 0x48 {
        Some(0x210c)
    } else if k == 0x49 {
        Some(0x2111)
    } else if 0x4a <= k < 0x52 {
        Some(k - 0x4a + 0x1d50d)
    } else if k == 0x52 {
        Some(0x211c)
    } else if 0x53 <= k < 0x5a {
        Some(k - 0x53 + 0x1d516)
    } else if k == 0x5a {
        Some(0x2128)
    } else if 0x61 <= k < 0x7b {
        Some(k - 0x61 + 0x1d51e)
    } else {
        None
    }
}

fn fraktur_lookup(k: u32) -> (r: Option<u32>)
    ensures
        widen(r) == fraktur_code(k as int),
{
    if 0x41 <= k && k < 0x43 {
        Some(k - 0x41 + 0x1d504)
    } else if k == 0x43 {
        Some(0x212d)
    } else if 0x44 <= k && k < 0x48 {
        Some(k - 0x44 + 0x1d507)
    } else if k == 0x48 {
        Some(0x210c)
    } else if k == 0x49 {
        Some(0x2111)
    } else if 0x4a <= k && k < 0x52 {
        Some(k - 0x4a + 0x1d50d)
    } else if k == 0x52 {
        Some(0x211c)
    } else if 0x53 <= k && k < 0x5a {
        Some(k - 0x53 + 0x1d516)
    } else if k == 0x5a {
        Some(0x2128)
    } else if 0x61 <= k && k < 0x7b {
        Some(k - 0x61 + 0x1d51e)
    } else {
        None
    }
}

/// The keys of this table are plain, and each value is a scalar whose plain form is its key.
proof fn fraktur_agrees(k: int)
    ensures
        fraktur_code(k) matches Some(s) ==> plain_code(k) == Some(k) && plain_code(s) == Some(k)
            && is_scalar(s),
{
}

/// Digits followed by a full stop.
pub open spec fn full_stop_code(k: int) -> Option<int> {
    if k == 0x30 {
        Some(0x1f100)
    } else if 0x31 <= k < 0x3a {
        Some(k - 0x31 + 0x2488)
    } else {
        None
    }
}

fn full_stop_lookup(k: u32) -> (r: Option<u32>)
    ensures
        widen(r) == full_stop_code(k as int),
{
    if k == 0x30 {
        Some(0x1f100)
    } else if 0x31 <= k && k < 0x3a {
        Some(k - 0x31 + 0x2488)
    } else {
        None
    }
}

/// The keys of this table are plain, and each value is a scalar whose plain form is its key.
proof fn full_stop_agrees(k: int)
    ensures
        full_stop_code(k) matches Some(s) ==> plain_code(k) == Some(k) && plain_code(s) == Some(k)
            && is_scalar(s),
{
}

/// Fullwidth forms of printable ASCII.
pub open spec fn fullwidth_code(k: int) -> Option<int> {
    if 0x21 <= k < 0x7f {
        Some(k - 0x21 + 0xff01)
    } else {
        None
    }
}

fn fullwidth_lookup(k: u32) -> (r: Option<u32>)
    ensures
        widen(r) == fullwidth_code(k as int),
{
    if 0x21 <= k && k < 0x7f {
        Some(k - 0x21 + 0xff01)
    } else {
        None
    }
}

/// The keys of this table are plain, and each value is a scalar whose plain form is its key.
proof fn fullwidth_agrees(k: int)
    ensures
        fullwidth_code(k) matches Some(s) ==> plain_code(k) == Some(k) && plain_code(s) == Some(k)
            && is_scalar(s),
{
}

/// Mathematical italic letters and Greek.
pub open spec fn italic_code(k: int) -> Option<int> {
    if 0x41 <= k < 0x5b {
        Some(k - 0x41 + 0x1d434)
    } else if 0x61 <= k < 0x68 {
        Some(k - 0x61 + 0x1d44e)
    } else if 0x69 <= k < 0x7b {
        Some(k - 0x69 + 0x1d456)
    } else if k == 0x131 {
        Some(0x1d6a4)
    } else if k == 0x237 {
        Some(0x1d6a5)
    } else if 0x391 <= k < 0x3a2 {
        Some(k - 0x391 + 0x1d6e2)
    } else if 0x3a3 <= k < 0x3aa {
        Some(k - 0x3a3 + 0x1d6f4)
    } else if 0x3b1 <= k < 0x3ca {
        Some(k - 0x3b1 + 0x1d6fc)
    } else if k == 0x3d1 {
        Some(0x1d717)
    } else if k == 0x3d5 {
        Some(0x1d719)
    } else if k == 0x3d6 {
        Some(0x1d71b)
    } else if k == 0x3f0 {
        Some(0x1d718)
    } else if k == 0x3f1 {
        Some(0x1d71a)
    } else if k == 0x3f4 {
        Some(0x1d6f3)
    } else if k == 0x3f5 {
        Some(0x1d716)
    } else if k == 0x2202 {
        Some(0x1d715)
    } else if k == 0x2207 {
        Some(0x1d6fb)
    } else {
        None
    }
}

fn italic_lookup(k: u32) -> (r: Option<u32>)
    ensures
        widen(r) == italic_code(k as int),
{
    if 0x41 <= k && k < 0x5b {
        Some(k - 0x41 + 0x1d434)
    } else if 0x61 <= k && k < 0x68 {
        Some(k - 0x61 + 0x1d44e)
    } else if 0x69 <= k && k < 0x7b {
        Some(k - 0x69 + 0x1d456)
    } else if k == 0x131 {
        Some(0x1d6a4)
    } else if k == 0x237 {
        Some(0x1d6a5)
    } else if 0x391 <= k && k < 0x3a2 {
        Some(k - 0x391 + 0x1d6e2)
    } else if 0x3a3 <= k && k < 0x3aa {
        Some(k - 0x3a3 + 0x1d6f4)
    } else if 0x3b1 <= k && k < 0x3ca {
        Some(k - 0x3b1 + 0x1d6fc)
    } else if k == 0x3d1 {
        Some(0x1d717)
    } else if k == 0x3d5 {
        Some(0x1d719)
    } else if k == 0x3d6 {
        Some(0x1d71b)
    } else if k == 0x3f0 {
        Some(0x1d718)
    } else if k == 0x3f1 {
        Some(0x1d71a)
    } else if k == 0x3f4 {
        Some(0x1d6f3)
    } else if k == 0x3f5 {
        Some(0x1d716)
    } else if k == 0x2202 {
        Some(0x1d715)
    } else if k == 0x2207 {
        Some(0x1d6fb)
    } else {
        None
    }
}

/// The keys of this table are plain, and each value is a scalar whose plain form is its key.
proof fn italic_agrees(k: int)
    ensures
        italic_code(k) matches Some(s) ==> plain_code(k) == Some(k) && plain_code(s) == Some(k)
            && is_scalar(s),
{
}

/// Arabic mathematical looped letters.
pub open spec fn looped_code(k: int) -> Option<int> {
    if 0x627 <= k < 0x629 {
        Some(k - 0x627 + 0x1ee80)
    } else if 0x62a <= k < 0x62c {
        Some(k - 0x62a + 0x1ee95)
    } else if k == 0x62c {
        Some(0x1ee82)
    } else if k == 0x62d {
        Some(0x1ee87)
    } else if k == 0x62e {
        Some(0x1ee97)
    } else if k == 0x62f {
        Some(0x1ee83)
    } else if k == 0x630 {
        Some(0x1ee98)
    } else if k == 0x631 {
        Some(0x1ee93)
    } else if k == 0x632 {
        Some(0x1ee86)
    } else if k == 0x633 {
        Some(0x1ee8e)
    } else if k == 0x634 {
        Some(0x1ee94)
    } else if k == 0x635 {
        Some(0x1ee91)
    } else if k == 0x636 {
        Some(0x1ee99)
    } else if k == 0x637 {
        Some(0x1ee88)
    } else if k == 0x638 {
        Some(0x1ee9a)
    } else if k == 0x639 {
        Some(0x1ee8f)
    } else if k == 0x63a {
        Some(0x1ee9b)
    } else if k == 0x641 {
        Some(0x1ee90)
    } else if k == 0x642 {
        Some(0x1ee92)
    } else if 0x644 <= k < 0x647 {
        Some(k - 0x644 + 0x1ee8b)
    } else if 0x647 <= k < 0x649 {
        Some(k - 0x647 + 0x1ee84)
    } else if k == 0x64a {
        Some(0x1ee89)
    } else {
        None
    }
}

fn looped_lookup(k: u32) -> (r: Option<u32>)
    ensures
        widen(r) == looped_code(k as int),
{
    if 0x627 <= k && k < 0x629 {
        Some(k - 0x627 + 0x1ee80)
    } else if 0x62a <= k && k < 0x62c {
        Some(k - 0x62a + 0x1ee95)
    } else if k == 0x62c {
        Some(0x1ee82)
    } else if k == 0x62d {
        Some(0x1ee87)
    } else if k == 0x62e {
        Some(0x1ee97)
    } else if k == 0x62f {
        Some(0x1ee83)
    } else if k == 0x630 {
        Some(0x1ee98)
    } else if k == 0x631 {
        Some(0x1ee93)
    } else if k == 0x632 {
        Some(0x1ee86)
    } else if k == 0x633 {
        Some(0x1ee8e)
    } else if k == 0x634 {
        Some(0x1ee94)
    } else if k == 0x635 {
        Some(0x1ee91)
    } else if k == 0x636 {
        Some(0x1ee99)
    } else if k == 0x637 {
        Some(0x1ee88)
    } else if k == 0x638 {
        Some(0x1ee9a)
    } else if k == 0x639 {
        Some(0x1ee8f)
    } else if k == 0x63a {
        Some(0x1ee9b)
    } else if k == 0x641 {
        Some(0x1ee90)
    } else if k == 0x642 {
        Some(0x1ee92)
    } else if 0x644 <= k && k < 0x647 {
        Some(k - 0x644 + 0x1ee8b)
    } else if 0x647 <= k && k < 0x649 {
        Some(k - 0x647 + 0x1ee84)
    } else if k == 0x64a {
        Some(0x1ee89)
    } else {
        None
    }
}

/// The keys of this table are plain, and each value is a scalar whose plain form is its key.
proof fn looped_agrees(k: int)
    ensures
        looped_code(k) matches Some(s) ==> plain_code(k) == Some(k) && plain_code(s) == Some(k)
            && is_scalar(s),
{
}

/// Mathematical monospace letters and digits.
pub open spec fn monospace_code(k: int) -> Option<int> {
    if 0x30 <= k < 0x3a {
        Some(k - 0x30 + 0x1d7f6)
    } else if 0x41 <= k < 0x5b {
        Some(k - 0x41 + 0x1d670)
    } else if 0x61 <= k < 0x7b {
        Some(k - 0x61 + 0x1d68a)
    } else {
        None
    }
}

fn monospace_lookup(k: u32) -> (r: Option<u32>)
    ensures
        widen(r) == monospace_code(k as int),
{
    if 0x30 <= k && k < 0x3a {
        Some(k - 0x30 + 0x1d7f6)
    } else if 0x41 <= k && k < 0x5b {
        Some(k - 0x41 + 0x1d670)
    } else if 0x61 <= k && k < 0x7b {
        Some(k - 0x61 + 0x1d68a)
    } else {
        None
    }
}

/// The keys of this table are plain, and each value is a scalar whose plain form is its key.
proof fn monospace_agrees(k: int)
    ensures
        monospace_code(k) matches Some(s) ==> plain_code(k) == Some(k) && plain_code(s) == Some(k)
            && is_scalar(s),
{
}

/// Negative circled letters and digits.
pub open spec fn negative_circled_code(k: int) -> Option<int> {
    if k == 0x30 {
        Some(0x24ff)
    } else if 0x31 <= k < 0x3a {
        Some(k - 0x31 + 0x2776)
    } else if 0x41 <= k < 0x5b {
        Some(k - 0x41 + 0x1f150)
    } else {
        None
    }
}

fn negative_circled_lookup(k: u32) -> (r: Option<u32>)
    ensures
        widen(r) == negative_circled_code(k as int),
{
    if k == 0x30 {
        Some(0x24ff)
    } else if 0x31 <= k && k < 0x3a {
        Some(k - 0x31 + 0x2776)
    } else if 0x41 <= k && k < 0x5b {
        Some(k - 0x41 + 0x1f150)
    } else {
        None
    }
}

/// The keys of this table are plain, and each value is a scalar whose plain form is its key.
proof fn negative_circled_agrees(k: int)
    ensures
        negative_circled_code(k) matches Some(s) ==> plain_code(k) == Some(k) && plain_code(s) == Some(k)
            && is_scalar(s),
{
}

/// Negative squared letters.
pub open spec fn negative_squared_code(k: int) -> Option<int> {
    if 0x41 <= k < 0x5b {
        Some(k - 0x41 + 0x1f170)
    } else {
        None
    }
}

fn negative_squared_lookup(k: u32) -> (r: Option<u32>)
    ensures
        widen(r) == negative_squared_code(k as int),
{
    if 0x41 <= k && k < 0x5b {
        Some(k - 0x41 + 0x1f170)
    } else {
        None
    }
}

/// The keys of this table are plain, and each value is a scalar whose plain form is its key.
proof fn negative_squared_agrees(k: int)
    ensures
        negative_squared_code(k) matches Some(s) ==> plain_code(k) == Some(k) && plain_code(s) == Some(k)
            && is_scalar(s),
{
}

/// Regional indicator letters.
pub open spec fn regional_code(k: int) -> Option<int> {
    if 0x41 <= k < 0x5b {
        Some(k - 0x41 + 0x1f1e6)
    } else {
        None
    }
}

fn regional_lookup(k: u32) -> (r: Option<u32>)
    ensures
        widen(r) == regional_code(k as int),
{
    if 0x41 <= k && k < 0x5b {
        Some(k - 0x41 + 0x1f1e6)
    } else {
        None
    }
}

/// The keys of this table are plain, and each value is a scalar whose plain form is its key.
proof fn regional_agrees(k: int)
    ensures
        regional_code(k) matches Some(s) ==> plain_code(k) == Some(k) && plain_code(s) == Some(k)
            && is_scalar(s),
{
}

/// Segmented digits.
pub open spec fn segmented_code(k: int) -> Option<int> {
    if 0x30 <= k < 0x3a {
        Some(k - 0x30 + 0x1fbf0)
    } else {
        None
    }
}

fn segmented_lookup(k: u32) -> (r: Option<u32>)
    ensures
        widen(r) == segmented_code(k as int),
{
    if 0x30 <= k && k < 0x3a {
        Some(k - 0x30 + 0x1fbf0)
    } else {
        None
    }
}

/// The keys of this table are plain, and each value is a scalar whose plain form is its key.
proof fn segmented_agrees(k: int)
    ensures
        segmented_code(k) matches Some(s) ==> plain_code(k) == Some(k) && plain_code(s) == Some(k)
            && is_scalar(s),
{
}

/// Letterlike forms without a named family.
pub open spec fn other_code(k: int) -> Option<int> {
    if k == 0x2b {
        Some(0xfb29)
    } else if k == 0x69 {
        Some(0x2139)
    } else if k == 0x5e2 {
        Some(0xfb20)
    } else {
        None
    }
}

fn other_lookup(k: u32) -> (r: Option<u32>)
    ensures
        widen(r) == other_code(k as int),
{
    if k == 0x2b {
        Some(0xfb29)
    } else if k == 0x69 {
        Some(0x2139)
    } else if k == 0x5e2 {
        Some(0xfb20)
    } else {
        None
    }
}

/// The keys of this table are plain, and each value is a scalar whose plain form is its key.
proof fn other_agrees(k: int)
    ensures
        other_code(k) matches Some(s) ==> plain_code(k) == Some(k) && plain_code(s) == Some(k)
            && is_scalar(s),
{
}

/// Parenthesized letters and digits.
pub open spec fn parenthesized_code(k: int) -> Option<int> {
    if 0x31 <= k < 0x3a {
        Some(k - 0x31 + 0x2474)
    } else if 0x41 <= k < 0x5b {
        Some(k - 0x41 + 0x1f110)
    } else if 0x61 <= k < 0x7b {
        Some(k - 0x61 + 0x249c)
    } else {
        None
    }
}

fn parenthesized_lookup(k: u32) -> (r: Option<u32>)
    ensures
        widen(r) == parenthesized_code(k as int),
{
    if 0x31 <= k && k < 0x3a {
        Some(k - 0x31 + 0x2474)
    } else if 0x41 <= k && k < 0x5b {
        Some(k - 0x41 + 0x1f110)
    } else if 0x61 <= k && k < 0x7b {
        Some(k - 0x61 + 0x249c)
    } else {
        None
    }
}

/// The keys of this table are plain, and each value is a scalar whose plain form is its key.
proof fn parenthesized_agrees(k: int)
    ensures
        parenthesized_code(k) matches Some(s) ==> plain_code(k) == Some(k) && plain_code(s) == Some(k)
            && is_scalar(s),
{
}

/// Mathematical sans-serif bold italic letters and Greek.
pub open spec fn sans_serif_bold_italic_code(k: int) -> Option<int> {
    if 0x41 <= k < 0x5b {
        Some(k - 0x41 + 0x1d63c)
    } else if 0x61 <= k < 0x7b {
        Some(k - 0x61 + 0x1d656)
    } else if 0x391 <= k < 0x3a2 {
        Some(k - 0x391 + 0x1d790)
    } else if 0x3a3 <= k < 0x3aa {
        Some(k - 0x3a3 + 0x1d7a2)
    } else if 0x3b1 <= k < 0x3ca {
        Some(k - 0x3b1 + 0x1d7aa)
    } else if k == 0x3d1 {
        Some(0x1d7c5)
    } else if k == 0x3d5 {
        Some(0x1d7c7)
    } else if k == 0x3d6 {
        Some(0x1d7c9)
    } else if k == 0x3f0 {
        Some(0x1d7c6)
    } else if k == 0x3f1 {
        Some(0x1d7c8)
    } else if k == 0x3f4 {
        Some(0x1d7a1)
    } else if k == 0x3f5 {
        Some(0x1d7c4)
    } else if k == 0x2202 {
        Some(0x1d7c3)
    } else if k == 0x2207 {
        Some(0x1d7a9)
    } else {
        None
    }
}

fn sans_serif_bold_italic_lookup(k: u32) -> (r: Option<u32>)
    ensures
        widen(r) == sans_serif_bold_italic_code(k as int),
{
    if 0x41 <= k && k < 0x5b {
        Some(k - 0x41 + 0x1d63c)
    } else if 0x61 <= k && k < 0x7b {
        Some(k - 0x61 + 0x1d656)
    } else if 0x391 <= k && k < 0x3a2 {
        Some(k - 0x391 + 0x1d790)
    } else if 0x3a3 <= k && k < 0x3aa {
        Some(k - 0x3a3 + 0x1d7a2)
    } else if 0x3b1 <= k && k < 0x3ca {
        Some(k - 0x3b1 + 0x1d7aa)
    } else if k == 0x3d1 {
        Some(0x1d7c5)
    } else if k == 0x3d5 {
        Some(0x1d7c7)
    } else if k == 0x3d6 {
        Some(0x1d7c9)
    } else if k == 0x3f0 {
        Some(0x1d7c6)
    } else if k == 0x3f1 {
        Some(0x1d7c8)
    } else if k == 0x3f4 {
        Some(0x1d7a1)
    } else if k == 0x3f5 {
        Some(0x1d7c4)
    } else if k == 0x2202 {
        Some(0x1d7c3)
    } else if k == 0x2207 {
        Some(0x1d7a9)
    } else {
        None
    }
}

/// The keys of this table are plain, and each value is a scalar whose plain form is its key.
proof fn sans_serif_bold_italic_agrees(k: int)
    ensures
        sans_serif_bold_italic_code(k) matches Some(s) ==> plain_code(k) == Some(k) && plain_code(s) == Some(k)
            && is_scalar(s),
{
}

/// Mathematical sans-serif bold letters, digits and Greek.
pub open spec fn sans_serif_bold_code(k: int) -> Option<int> {
    if 0x30 <= k < 0x3a {
        Some(k - 0x30 + 0x1d7ec)
    } else if 0x41 <= k < 0x5b {
        Some(k - 0x41 + 0x1d5d4)
    } else if 0x61 <= k < 0x7b {
        Some(k - 0x61 + 0x1d5ee)
    } else if 0x391 <= k < 0x3a2 {
        Some(k - 0x391 + 0x1d756)
    } else if 0x3a3 <= k < 0x3aa {
        Some(k - 0x3a3 + 0x1d768)
    } else if 0x3b1 <= k < 0x3ca {
        Some(k - 0x3b1 + 0x1d770)
    } else if k == 0x3d1 {
        Some(0x1d78b)
    } else if k == 0x3d5 {
        Some(0x1d78d)
    } else if k == 0x3d6 {
        Some(0x1d78f)
    } else if k == 0x3f0 {
        Some(0x1d78c)
    } else if k == 0x3f1 {
        Some(0x1d78e)
    } else if k == 0x3f4 {
        Some(0x1d767)
    } else if k == 0x3f5 {
        Some(0x1d78a)
    } else if k == 0x2202 {
        Some(0x1d789)
    } else if k == 0x2207 {
        Some(0x1d76f)
    } else {
        None
    }
}

fn sans_serif_bold_lookup(k: u32) -> (r: Option<u32>)
    ensures
        widen(r) == sans_serif_bold_code(k as int),
{
    if 0x30 <= k && k < 0x3a {
        Some(k - 0x30 + 0x1d7ec)
    } else if 0x41 <= k && k < 0x5b {
        Some(k - 0x41 + 0x1d5d4)
    } else if 0x61 <= k && k < 0x7b {
        Some(k - 0x61 + 0x1d5ee)
    } else if 0x391 <= k && k < 0x3a2 {
        Some(k - 0x391 + 0x1d756)
    } else if 0x3a3 <= k && k < 0x3aa {
        Some(k - 0x3a3 + 0x1d768)
    } else if 0x3b1 <= k && k < 0x3ca {
        Some(k - 0x3b1 + 0x1d770)
    } else if k == 0x3d1 {
        Some(0x1d78b)
    } else if k == 0x3d5 {
        Some(0x1d78d)
    } else if k == 0x3d6 {
        Some(0x1d78f)
    } else if k == 0x3f0 {
        Some(0x1d78c)
    } else if k == 0x3f1 {
        Some(0x1d78e)
    } else if k == 0x3f4 {
        Some(0x1d767)
    } else if k == 0x3f5 {
        Some(0x1d78a)
    } else if k == 0x2202 {
        Some(0x1d789)
    } else if k == 0x2207 {
        Some(0x1d76f)
    } else {
        None
    }
}

/// The keys of this table are plain, and each value is a scalar whose plain form is its key.
proof fn sans_serif_bold_agrees(k: int)
    ensures
        sans_serif_bold_code(k) matches Some(s) ==> plain_code(k) == Some(k) && plain_code(s) == Some(k)
            && is_scalar(s),
{
}

/// Mathematical sans-serif italic letters.
pub open spec fn sans_serif_italic_code(k: int) -> Option<int> {
    if 0x41 <= k < 0x5b {
        Some(k - 0x41 + 0x1d608)
    } else if 0x61 <= k < 0x7b {
        Some(k - 0x61 + 0x1d622)
    } else {
        None
    }
}

fn sans_serif_italic_lookup(k: u32) -> (r: Option<u32>)
    ensures
        widen(r) == sans_serif_italic_code(k as int),
{
    if 0x41 <= k && k < 0x5b {
        Some(k - 0x41 + 0x1d608)
    } else if 0x61 <= k && k < 0x7b {
        Some(k - 0x61 + 0x1d622)
    } else {
        None
    }
}

/// The keys of this table are plain, and each value is a scalar whose plain form is its key.
proof fn sans_serif_italic_agrees(k: int)
    ensures
        sans_serif_italic_code(k) matches Some(s) ==> plain_code(k) == Some(k) && plain_code(s) == Some(k)
            && is_scalar(s),
{
}

/// Mathematical sans-serif letters and digits.
pub open spec fn sans_serif_code(k: int) -> Option<int> {
    if 0x30 <= k < 0x3a {
        Some(k - 0x30 + 0x1d7e2)
    } else if 0x41 <= k < 0x5b {
        Some(k - 0x41 + 0x1d5a0)
    } else if 0x61 <= k < 0x7b {
        Some(k - 0x61 + 0x1d5ba)
    } else {
        None
    }
}

fn sans_serif_lookup(k: u32) -> (r: Option<u32>)
    ensures
        widen(r) == sans_serif_code(k as int),
{
    if 0x30 <= k && k < 0x3a {
        Some(k - 0x30 + 0x1d7e2)
    } else if 0x41 <= k && k < 0x5b {
        Some(k - 0x41 + 0x1d5a0)
    } else if 0x61 <= k && k < 0x7b {
        Some(k - 0x61 + 0x1d5ba)
    } else {
        None
    }
}

/// The keys of this table are plain, and each value is a scalar whose plain form is its key.
proof fn sans_serif_agrees(k: int)
    ensures
        sans_serif_code(k) matches Some(s) ==> plain_code(k) == Some(k) && plain_code(s) == Some(k)
            && is_scalar(s),
{
}

/// Mathematical script letters.
pub open spec fn mathematical_script_code(k: int) -> Option<int> {
    if k == 0x41 {
        Some(0x1d49c)
    } else if 0x43 <= k < 0x45 {
        Some(k - 0x43 + 0x1d49e)
    } else if k == 0x47 {
        Some(0x1d4a2)
    } else if 0x4a <= k < 0x4c {
        Some(k - 0x4a + 0x1d4a5)
    } else if 0x4e <= k < 0x52 {
        Some(k - 0x4e + 0x1d4a9)
    } else if 0x53 <= k < 0x5b {
        Some(k - 0x53 + 0x1d4ae)
    } else if 0x61 <= k < 0x65 {
        Some(k - 0x61 + 0x1d4b6)
    } else if k == 0x66 {
        Some(0x1d4bb)
    } else if 0x68 <= k < 0x6f {
        Some(k - 0x68 + 0x1d4bd)
    } else if 0x70 <= k < 0x7b {
        Some(k - 0x70 + 0x1d4c5)
    } else {
        None
    }
}

fn mathematical_script_lookup(k: u32) -> (r: Option<u32>)
    ensures
        widen(r) == mathematical_script_code(k as int),
{
    if k == 0x41 {
        Some(0x1d49c)
    } else if 0x43 <= k && k < 0x45 {
        Some(k - 0x43 + 0x1d49e)
    } else if k == 0x47 {
        Some(0x1d4a2)
    } else if 0x4a <= k && k < 0x4c {
        Some(k - 0x4a + 0x1d4a5)
    } else if 0x4e <= k && k < 0x52 {
        Some(k - 0x4e + 0x1d4a9)
    } else if 0x53 <= k && k < 0x5b {
        Some(k - 0x53 + 0x1d4ae)
    } else if 0x61 <= k && k < 0x65 {
        Some(k - 0x61 + 0x1d4b6)
    } else if k == 0x66 {
        Some(0x1d4bb)
    } else if 0x68 <= k && k < 0x6f {
        Some(k - 0x68 + 0x1d4bd)
    } else if 0x70 <= k && k < 0x7b {
        Some(k - 0x70 + 0x1d4c5)
    } else {
        None
    }
}

/// The keys of this table are plain, and each value is a scalar whose plain form is its key.
proof fn mathematical_script_agrees(k: int)
    ensures
        mathematical_script_code(k) matches Some(s) ==> plain_code(k) == Some(k) && plain_code(s) == Some(k)
            && is_scalar(s),
{
}

/// Letterlike script symbols.
pub open spec fn script_code(k: int) -> Option<int> {
    if k == 0x42 {
        Some(0x212c)
    } else if 0x45 <= k < 0x47 {
        Some(k - 0x45 + 0x2130)
    } else if k == 0x48 {
        Some(0x210b)
    } else if k == 0x49 {
        Some(0x2110)
    } else if k == 0x4c {
        Some(0x2112)
    } else if k == 0x4d {
        Some(0x2133)
    } else if k == 0x52 {
        Some(0x211b)
    } else if k == 0x65 {
        Some(0x212f)
    } else if k == 0x67 {
        Some(0x210a)
    } else if k == 0x68 {
        Some(0x210e)
    } else if k == 0x6c {
        Some(0x2113)
    } else if k == 0x6f {
        Some(0x2134)
    } else if k == 0x127 {
        Some(0x210f)
    } else {
        None
    }
}

fn script_lookup(k: u32) -> (r: Option<u32>)
    ensures
        widen(r) == script_code(k as int),
{
    if k == 0x42 {
        Some(0x212c)
    } else if 0x45 <= k && k < 0x47 {
        Some(k - 0x45 + 0x2130)
    } else if k == 0x48 {
        Some(0x210b)
    } else if k == 0x49 {
        Some(0x2110)
    } else if k == 0x4c {
        Some(0x2112)
    } else if k == 0x4d {
        Some(0x2133)
    } else if k == 0x52 {
        Some(0x211b)
    } else if k == 0x65 {
        Some(0x212f)
    } else if k == 0x67 {
        Some(0x210a)
    } else if k == 0x68 {
        Some(0x210e)
    } else if k == 0x6c {
        Some(0x2113)
    } else if k == 0x6f {
        Some(0x2134)
    } else if k == 0x127 {
        Some(0x210f)
    } else {
        None
    }
}

/// The keys of this table are plain, and each value is a scalar whose plain form is its key.
proof fn script_agrees(k: int)
    ensures
        script_code(k) matches Some(s) ==> plain_code(k) == Some(k) && plain_code(s) == Some(k)
            && is_scalar(s),
{
}

/// Small capital letters.
pub open spec fn small_capital_code(k: int) -> Option<int> {
    if k == 0x41 {
        Some(0x1d00)
    } else if k == 0x42 {
        Some(0x299)
    } else if 0x43 <= k < 0x45 {
        Some(k - 0x43 + 0x1d04)
    } else if k == 0x45 {
        Some(0x1d07)
    } else if k == 0x46 {
        Some(0xa730)
    } else if k == 0x47 {
        Some(0x262)
    } else if k == 0x48 {
        Some(0x29c)
    } else if k == 0x49 {
        Some(0x26a)
    } else if 0x4a <= k < 0x4c {
        Some(k - 0x4a + 0x1d0a)
    } else if k == 0x4c {
        Some(0x29f)
    } else if k == 0x4d {
        Some(0x1d0d)
    } else if k == 0x4e {
        Some(0x274)
    } else if k == 0x4f {
        Some(0x1d0f)
    } else if k == 0x50 {
        Some(0x1d18)
    } else if k == 0x51 {
        Some(0xa7af)
    } else if k == 0x52 {
        Some(0x280)
    } else if k == 0x53 {
        Some(0xa731)
    } else if 0x54 <= k < 0x56 {
        Some(k - 0x54 + 0x1d1b)
    } else if 0x56 <= k < 0x58 {
        Some(k - 0x56 + 0x1d20)
    } else if k == 0x59 {
        Some(0x28f)
    } else if k == 0x5a {
        Some(0x1d22)
    } else {
        None
    }
}

fn small_capital_lookup(k: u32) -> (r: Option<u32>)
    ensures
        widen(r) == small_capital_code(k as int),
{
    if k == 0x41 {
        Some(0x1d00)
    } else if k == 0x42 {
        Some(0x299)
    } else if 0x43 <= k && k < 0x45 {
        Some(k - 0x43 + 0x1d04)
    } else if k == 0x45 {
        Some(0x1d07)
    } else if k == 0x46 {
        Some(0xa730)
    } else if k == 0x47 {
        Some(0x262)
    } else if k == 0x48 {
        Some(0x29c)
    } else if k == 0x49 {
        Some(0x26a)
    } else if 0x4a <= k && k < 0x4c {
        Some(k - 0x4a + 0x1d0a)
    } else if k == 0x4c {
        Some(0x29f)
    } else if k == 0x4d {
        Some(0x1d0d)
    } else if k == 0x4e {
        Some(0x274)
    } else if k == 0x4f {
        Some(0x1d0f)
    } else if k == 0x50 {
        Some(0x1d18)
    } else if k == 0x51 {
        Some(0xa7af)
    } else if k == 0x52 {
        Some(0x280)
    } else if k == 0x53 {
        Some(0xa731)
    } else if 0x54 <= k && k < 0x56 {
        Some(k - 0x54 + 0x1d1b)
    } else if 0x56 <= k && k < 0x58 {
        Some(k - 0x56 + 0x1d20)
    } else if k == 0x59 {
        Some(0x28f)
    } else if k == 0x5a {
        Some(0x1d22)
    } else {
        None
    }
}

/// The keys of this table are plain, and each value is a scalar whose plain form is its key.
proof fn small_capital_agrees(k: int)
    ensures
        small_capital_code(k) matches Some(s) ==> plain_code(k) == Some(k) && plain_code(s) == Some(k)
            && is_scalar(s),
{
}

/// Superscript and modifier letters and digits.
pub open spec fn superscript_code(k: int) -> Option<int> {
    if 0x28 <= k < 0x2a {
        Some(k - 0x28 + 0x207d)
    } else if k == 0x2b {
        Some(0x207a)
    } else if k == 0x30 {
        Some(0x2070)
    } else if k == 0x31 {
        Some(0xb9)
    } else if 0x32 <= k < 0x34 {
        Some(k - 0x32 + 0xb2)
    } else if 0x34 <= k < 0x3a {
        Some(k - 0x34 + 0x2074)
    } else if k == 0x3d {
        Some(0x207c)
    } else if k == 0x41 {
        Some(0x1d2c)
    } else if k == 0x42 {
        Some(0x1d2e)
    } else if 0x44 <= k < 0x46 {
        Some(k - 0x44 + 0x1d30)
    } else if 0x47 <= k < 0x4f {
        Some(k - 0x47 + 0x1d33)
    } else if k == 0x4f {
        Some(0x1d3c)
    } else if k == 0x50 {
        Some(0x1d3e)
    } else if k == 0x52 {
        Some(0x1d3f)
    } else if 0x54 <= k < 0x56 {
        Some(k - 0x54 + 0x1d40)
    } else if k == 0x57 {
        Some(0x1d42)
    } else if k == 0x61 {
        Some(0x1d43)
    } else if k == 0x62 {
        Some(0x1d47)
    } else if k == 0x63 {
        Some(0x1d9c)
    } else if 0x64 <= k < 0x66 {
        Some(k - 0x64 + 0x1d48)
    } else if k == 0x66 {
        Some(0x1da0)
    } else if k == 0x67 {
        Some(0x1d4d)
    } else if k == 0x68 {
        Some(0x2b0)
    } else if k == 0x69 {
        Some(0x2071)
    } else if k == 0x6a {
        Some(0x2b2)
    } else if k == 0x6b {
        Some(0x1d4f)
    } else if k == 0x6c {
        Some(0x2e1)
    } else if k == 0x6d {
        Some(0x1d50)
    } else if k == 0x6e {
        Some(0x207f)
    } else if k == 0x6f {
        Some(0x1d52)
    } else if k == 0x70 {
        Some(0x1d56)
    } else if k == 0x72 {
        Some(0x2b3)
    } else if k == 0x73 {
        Some(0x2e2)
    } else if 0x74 <= k < 0x76 {
        Some(k - 0x74 + 0x1d57)
    } else if k == 0x76 {
        Some(0x1d5b)
    } else if k == 0x77 {
        Some(0x2b7)
    } else if k == 0x78 {
        Some(0x2e3)
    } else if k == 0x79 {
        Some(0x2b8)
    } else if k == 0x7a {
        Some(0x1dbb)
    } else if k == 0x2212 {
        Some(0x207b)
    } else {
        None
    }
}

fn superscript_lookup(k: u32) -> (r: Option<u32>)
    ensures
        widen(r) == superscript_code(k as int),
{
    if 0x28 <= k && k < 0x2a {
        Some(k - 0x28 + 0x207d)
    } else if k == 0x2b {
        Some(0x207a)
    } else if k == 0x30 {
        Some(0x2070)
    } else if k == 0x31 {
        Some(0xb9)
    } else if 0x32 <= k && k < 0x34 {
        Some(k - 0x32 + 0xb2)
    } else if 0x34 <= k && k < 0x3a {
        Some(k - 0x34 + 0x2074)
    } else if k == 0x3d {
        Some(0x207c)
    } else if k == 0x41 {
        Some(0x1d2c)
    } else if k == 0x42 {
        Some(0x1d2e)
    } else if 0x44 <= k && k < 0x46 {
        Some(k - 0x44 + 0x1d30)
    } else if 0x47 <= k && k < 0x4f {
        Some(k - 0x47 + 0x1d33)
    } else if k == 0x4f {
        Some(0x1d3c)
    } else if k == 0x50 {
        Some(0x1d3e)
    } else if k == 0x52 {
        Some(0x1d3f)
    } else if 0x54 <= k && k < 0x56 {
        Some(k - 0x54 + 0x1d40)
    } else if k == 0x57 {
        Some(0x1d42)
    } else if k == 0x61 {
        Some(0x1d43)
    } else if k == 0x62 {
        Some(0x1d47)
    } else if k == 0x63 {
        Some(0x1d9c)
    } else if 0x64 <= k && k < 0x66 {
        Some(k - 0x64 + 0x1d48)
    } else if k == 0x66 {
        Some(0x1da0)
    } else if k == 0x67 {
        Some(0x1d4d)
    } else if k == 0x68 {
        Some(0x2b0)
    } else if k == 0x69 {
        Some(0x2071)
    } else if k == 0x6a {
        Some(0x2b2)
    } else if k == 0x6b {
        Some(0x1d4f)
    } else if k == 0x6c {
        Some(0x2e1)
    } else if k == 0x6d {
        Some(0x1d50)
    } else if k == 0x6e {
        Some(0x207f)
    } else if k == 0x6f {
        Some(0x1d52)
    } else if k == 0x70 {
        Some(0x1d56)
    } else if k == 0x72 {
        Some(0x2b3)
    } else if k == 0x73 {
        Some(0x2e2)
    } else if 0x74 <= k && k < 0x76 {
        Some(k - 0x74 + 0x1d57)
    } else if k == 0x76 {
        Some(0x1d5b)
    } else if k == 0x77 {
        Some(0x2b7)
    } else if k == 0x78 {
        Some(0x2e3)
    } else if k == 0x79 {
        Some(0x2b8)
    } else if k == 0x7a {
        Some(0x1dbb)
    } else if k == 0x2212 {
        Some(0x207b)
    } else {
        None
    }
}

/// The keys of this table are plain, and each value is a scalar whose plain form is its key.
proof fn superscript_agrees(k: int)
    ensures
        superscript_code(k) matches Some(s) ==> plain_code(k) == Some(k) && plain_code(s) == Some(k)
            && is_scalar(s),
{
}

/// Subscript letters and digits.
pub open spec fn subscript_code(k: int) -> Option<int> {
    if 0x28 <= k < 0x2a {
        Some(k - 0x28 + 0x208d)
    } else if k == 0x2b {
        Some(0x208a)
    } else if 0x30 <= k < 0x3a {
        Some(k - 0x30 + 0x2080)
    } else if k == 0x3d {
        Some(0x208c)
    } else if k == 0x61 {
        Some(0x2090)
    } else if k == 0x65 {
        Some(0x2091)
    } else if k == 0x68 {
        Some(0x2095)
    } else if k == 0x69 {
        Some(0x1d62)
    } else if k == 0x6a {
        Some(0x2c7c)
    } else if 0x6b <= k < 0x6f {
        Some(k - 0x6b + 0x2096)
    } else if k == 0x6f {
        Some(0x2092)
    } else if k == 0x70 {
        Some(0x209a)
    } else if k == 0x72 {
        Some(0x1d63)
    } else if 0x73 <= k < 0x75 {
        Some(k - 0x73 + 0x209b)
    } else if 0x75 <= k < 0x77 {
        Some(k - 0x75 + 0x1d64)
    } else if k == 0x78 {
        Some(0x2093)
    } else if k == 0x259 {
        Some(0x2094)
    } else if k == 0x2212 {
        Some(0x208b)
    } else {
        None
    }
}

fn subscript_lookup(k: u32) -> (r: Option<u32>)
    ensures
        widen(r) == subscript_code(k as int),
{
    if 0x28 <= k && k < 0x2a {
        Some(k - 0x28 + 0x208d)
    } else if k == 0x2b {
        Some(0x208a)
    } else if 0x30 <= k && k < 0x3a {
        Some(k - 0x30 + 0x2080)
    } else if k == 0x3d {
        Some(0x208c)
    } else if k == 0x61 {
        Some(0x2090)
    } else if k == 0x65 {
        Some(0x2091)
    } else if k == 0x68 {
        Some(0x2095)
    } else if k == 0x69 {
        Some(0x1d62)
    } else if k == 0x6a {
        Some(0x2c7c)
    } else if 0x6b <= k && k < 0x6f {
        Some(k - 0x6b + 0x2096)
    } else if k == 0x6f {
        Some(0x2092)
    } else if k == 0x70 {
        Some(0x209a)
    } else if k == 0x72 {
        Some(0x1d63)
    } else if 0x73 <= k && k < 0x75 {
        Some(k - 0x73 + 0x209b)
    } else if 0x75 <= k && k < 0x77 {
        Some(k - 0x75 + 0x1d64)
    } else if k == 0x78 {
        Some(0x2093)
    } else if k == 0x259 {
        Some(0x2094)
    } else if k == 0x2212 {
        Some(0x208b)
    } else {
        None
    }
}

/// The keys of this table are plain, and each value is a scalar whose plain form is its key.
proof fn subscript_agrees(k: int)
    ensures
        subscript_code(k) matches Some(s) ==> plain_code(k) == Some(k) && plain_code(s) == Some(k)
            && is_scalar(s),
{
}

/// Arabic mathematical stretched letters.
pub open spec fn stretched_code(k: int) -> Option<int> {
    if k == 0x628 {
        Some(0x1ee61)
    } else if 0x62a <= k < 0x62c {
        Some(k - 0x62a + 0x1ee75)
    } else if k == 0x62c {
        Some(0x1ee62)
    } else if k == 0x62d {
        Some(0x1ee67)
    } else if k == 0x62e {
        Some(0x1ee77)
    } else if k == 0x633 {
        Some(0x1ee6e)
    } else if k == 0x634 {
        Some(0x1ee74)
    } else if k == 0x635 {
        Some(0x1ee71)
    } else if k == 0x636 {
        Some(0x1ee79)
    } else if k == 0x637 {
        Some(0x1ee68)
    } else if k == 0x638 {
        Some(0x1ee7a)
    } else if k == 0x639 {
        Some(0x1ee6f)
    } else if k == 0x63a {
        Some(0x1ee7b)
    } else if k == 0x641 {
        Some(0x1ee70)
    } else if k == 0x642 {
        Some(0x1ee72)
    } else if k == 0x643 {
        Some(0x1ee6a)
    } else if 0x645 <= k < 0x647 {
        Some(k - 0x645 + 0x1ee6c)
    } else if k == 0x647 {
        Some(0x1ee64)
    } else if k == 0x64a {
        Some(0x1ee69)
    } else if k == 0x66e {
        Some(0x1ee7c)
    } else if k == 0x6a1 {
        Some(0x1ee7e)
    } else {
        None
    }
}

fn stretched_lookup(k: u32) -> (r: Option<u32>)
    ensures
        widen(r) == stretched_code(k as int),
{
    if k == 0x628 {
        Some(0x1ee61)
    } else if 0x62a <= k && k < 0x62c {
        Some(k - 0x62a + 0x1ee75)
    } else if k == 0x62c {
        Some(0x1ee62)
    } else if k == 0x62d {
        Some(0x1ee67)
    } else if k == 0x62e {
        Some(0x1ee77)
    } else if k == 0x633 {
        Some(0x1ee6e)
    } else if k == 0x634 {
        Some(0x1ee74)
    } else if k == 0x635 {
        Some(0x1ee71)
    } else if k == 0x636 {
        Some(0x1ee79)
    } else if k == 0x637 {
        Some(0x1ee68)
    } else if k == 0x638 {
        Some(0x1ee7a)
    } else if k == 0x639 {
        Some(0x1ee6f)
    } else if k == 0x63a {
        Some(0x1ee7b)
    } else if k == 0x641 {
        Some(0x1ee70)
    } else if k == 0x642 {
        Some(0x1ee72)
    } else if k == 0x643 {
        Some(0x1ee6a)
    } else if 0x645 <= k && k < 0x647 {
        Some(k - 0x645 + 0x1ee6c)
    } else if k == 0x647 {
        Some(0x1ee64)
    } else if k == 0x64a {
        Some(0x1ee69)
    } else if k == 0x66e {
        Some(0x1ee7c)
    } else if k == 0x6a1 {
        Some(0x1ee7e)
    } else {
        None
    }
}

/// The keys of this table are plain, and each value is a scalar whose plain form is its key.
proof fn stretched_agrees(k: int)
    ensures
        stretched_code(k) matches Some(s) ==> plain_code(k) == Some(k) && plain_code(s) == Some(k)
            && is_scalar(s),
{
}

/// Squared letters.
pub open spec fn squared_code(k: int) -> Option<int> {
    if 0x41 <= k < 0x5b {
        Some(k - 0x41 + 0x1f130)
    } else {
        None
    }
}

fn squared_lookup(k: u32) -> (r: Option<u32>)
    ensures
        widen(r) == squared_code(k as int),
{
    if 0x41 <= k && k < 0x5b {
        Some(k - 0x41 + 0x1f130)
    } else {
        None
    }
}

/// The keys of this table are plain, and each value is a scalar whose plain form is its key.
proof fn squared_agrees(k: int)
    ensures
        squared_code(k) matches Some(s) ==> plain_code(k) == Some(k) && plain_code(s) == Some(k)
            && is_scalar(s),
{
}

/// Arabic mathematical tailed letters.
pub open spec fn tailed_code(k: int) -> Option<int> {
    if k == 0x62c {
        Some(0x1ee42)
    } else if k == 0x62d {
        Some(0x1ee47)
    } else if k == 0x62e {
        Some(0x1ee57)
    } else if k == 0x633 {
        Some(0x1ee4e)
    } else if k == 0x634 {
        Some(0x1ee54)
    } else if k == 0x635 {
        Some(0x1ee51)
    } else if k == 0x636 {
        Some(0x1ee59)
    } else if k == 0x639 {
        Some(0x1ee4f)
    } else if k == 0x63a {
        Some(0x1ee5b)
    } else if k == 0x642 {
        Some(0x1ee52)
    } else if k == 0x644 {
        Some(0x1ee4b)
    } else if k == 0x646 {
        Some(0x1ee4d)
    } else if k == 0x64a {
        Some(0x1ee49)
    } else if k == 0x66f {
        Some(0x1ee5f)
    } else if k == 0x6ba {
        Some(0x1ee5d)
    } else {
        None
    }
}

fn tailed_lookup(k: u32) -> (r: Option<u32>)
    ensures
        widen(r) == tailed_code(k as int),
{
    if k == 0x62c {
        Some(0x1ee42)
    } else if k == 0x62d {
        Some(0x1ee47)
    } else if k == 0x62e {
        Some(0x1ee57)
    } else if k == 0x633 {
        Some(0x1ee4e)
    } else if k == 0x634 {
        Some(0x1ee54)
    } else if k == 0x635 {
        Some(0x1ee51)
    } else if k == 0x636 {
        Some(0x1ee59)
    } else if k == 0x639 {
        Some(0x1ee4f)
    } else if k == 0x63a {
        Some(0x1ee5b)
    } else if k == 0x642 {
        Some(0x1ee52)
    } else if k == 0x644 {
        Some(0x1ee4b)
    } else if k == 0x646 {
        Some(0x1ee4d)
    } else if k == 0x64a {
        Some(0x1ee49)
    } else if k == 0x66f {
        Some(0x1ee5f)
    } else if k == 0x6ba {
        Some(0x1ee5d)
    } else {
        None
    }
}

/// The keys of this table are plain, and each value is a scalar whose plain form is its key.
proof fn tailed_agrees(k: int)
    ensures
        tailed_code(k) matches Some(s) ==> plain_code(k) == Some(k) && plain_code(s) == Some(k)
            && is_scalar(s),
{
}

/// Wide Hebrew letters.
pub open spec fn wide_code(k: int) -> Option<int> {
    if k == 0x5d0 {
        Some(0xfb21)
    } else if 0x5d3 <= k < 0x5d5 {
        Some(k - 0x5d3 + 0xfb22)
    } else if 0x5db <= k < 0x5de {
        Some(k - 0x5db + 0xfb24)
    } else if k == 0x5e8 {
        Some(0xfb27)
    } else if k == 0x5ea {
        Some(0xfb28)
    } else {
        None
    }
}

fn wide_lookup(k: u32) -> (r: Option<u32>)
    ensures
        widen(r) == wide_code(k as int),
{
    if k == 0x5d0 {
        Some(0xfb21)
    } else if 0x5d3 <= k && k < 0x5d5 {
        Some(k - 0x5d3 + 0xfb22)
    } else if 0x5db <= k && k < 0x5de {
        Some(k - 0x5db + 0xfb24)
    } else if k == 0x5e8 {
        Some(0xfb27)
    } else if k == 0x5ea {
        Some(0xfb28)
    } else {
        None
    }
}

/// The keys of this table are plain, and each value is a scalar whose plain form is its key.
proof fn wide_agrees(k: int)
    ensures
        wide_code(k) matches Some(s) ==> plain_code(k) == Some(k) && plain_code(s) == Some(k)
            && is_scalar(s),
{
}

/// The styled form of plain code point `k` in variant `v`, if it has one. The plain variant
/// maps each plain character to itself.
pub open spec fn styled_code(v: Variant, k: int) -> Option<int> {
    match v {
        Variant::ArabicMathematical => arabic_mathematical_code(k),
        Variant::ArabicMathematicalInitial => arabic_mathematical_initial_code(k),
        Variant::Bold => bold_code(k),
        Variant::BoldItalic => bold_italic_code(k),
        Variant::BoldFraktur => bold_fraktur_code(k),
        Variant::BoldScript => bold_script_code(k),
        Variant::Circled => circled_code(k),
        Variant::Comma => comma_code(k),
        Variant::DoubleStruck => double_struck_code(k),
        Variant::DoubleStruckItalic => double_struck_italic_code(k),
        Variant::Fraktur => fraktur_code(k),
        Variant::FullStop => full_stop_code(k),
        Variant::Fullwidth => fullwidth_code(k),
        Variant::Italic => italic_code(k),
        Variant::Looped => looped_code(k),
        Variant::Monospace => monospace_code(k),
        Variant::NegativeCircled => negative_circled_code(k),
        Variant::NegativeSquared => negative_squared_code(k),
        Variant::Regional => regional_code(k),
        Variant::Segmented => segmented_code(k),
        Variant::Other => other_code(k),
        Variant::Parenthesized => parenthesized_code(k),
        Variant::Plain => if plain_code(k) == Some(k) {
            Some(k)
        } else {
            None
        },
        Variant::SansSerifBoldItalic => sans_serif_bold_italic_code(k),
        Variant::SansSerifBold => sans_serif_bold_code(k),
        Variant::SansSerifItalic => sans_serif_italic_code(k),
        Variant::SansSerif => sans_serif_code(k),
        Variant::MathematicalScript => mathematical_script_code(k),
        Variant::Script => script_code(k),
        Variant::SmallCapital => small_capital_code(k),
        Variant::Superscript => superscript_code(k),
        Variant::Subscript => subscript_code(k),
        Variant::Stretched => stretched_code(k),
        Variant::Squared => squared_code(k),
        Variant::Tailed => tailed_code(k),
        Variant::Wide => wide_code(k),
    }
}

/// Computes `styled_code`.
pub fn styled_lookup(v: Variant, k: u32) -> (r: Option<u32>)
    ensures
        widen(r) == styled_code(v, k as int),
{
    match v {
        Variant::ArabicMathematical => arabic_mathematical_lookup(k),
        Variant::ArabicMathematicalInitial => arabic_mathematical_initial_lookup(k),
        Variant::Bold => bold_lookup(k),
        Variant::BoldItalic => bold_italic_lookup(k),
        Variant::BoldFraktur => bold_fraktur_lookup(k),
        Variant::BoldScript => bold_script_lookup(k),
        Variant::Circled => circled_lookup(k),
        Variant::Comma => comma_lookup(k),
        Variant::DoubleStruck => double_struck_lookup(k),
        Variant::DoubleStruckItalic => double_struck_italic_lookup(k),
        Variant::Fraktur => fraktur_lookup(k),
        Variant::FullStop => full_stop_lookup(k),
        Variant::Fullwidth => fullwidth_lookup(k),
        Variant::Italic => italic_lookup(k),
        Variant::Looped => looped_lookup(k),
        Variant::Monospace => monospace_lookup(k),
        Variant::NegativeCircled => negative_circled_lookup(k),
        Variant::NegativeSquared => negative_squared_lookup(k),
        Variant::Regional => regional_lookup(k),
        Variant::Segmented => segmented_lookup(k),
        Variant::Other => other_lookup(k),
        Variant::Parenthesized => parenthesized_lookup(k),
        Variant::Plain => match plain_lookup(k) {
            Some(p) if p == k => Some(k),
            _ => None,
        },
        Variant::SansSerifBoldItalic => sans_serif_bold_italic_lookup(k),
        Variant::SansSerifBold => sans_serif_bold_lookup(k),
        Variant::SansSerifItalic => sans_serif_italic_lookup(k),
        Variant::SansSerif => sans_serif_lookup(k),
        Variant::MathematicalScript => mathematical_script_lookup(k),
        Variant::Script => script_lookup(k),
        Variant::SmallCapital => small_capital_lookup(k),
        Variant::Superscript => superscript_lookup(k),
        Variant::Subscript => subscript_lookup(k),
        Variant::Stretched => stretched_lookup(k),
        Variant::Squared => squared_lookup(k),
        Variant::Tailed => tailed_lookup(k),
        Variant::Wide => wide_lookup(k),
    }
}

/// Every styled form is a scalar value whose plain form is its key, and every key is plain.
pub proof fn styled_agrees(v: Variant, k: int)
    ensures
        styled_code(v, k) matches Some(s) ==> plain_code(k) == Some(k) && plain_code(s) == Some(k)
            && is_scalar(s),
{
    match v {
        Variant::ArabicMathematical => arabic_mathematical_agrees(k),
        Variant::ArabicMathematicalInitial => arabic_mathematical_initial_agrees(k),
        Variant::Bold => bold_agrees(k),
        Variant::BoldItalic => bold_italic_agrees(k),
        Variant::BoldFraktur => bold_fraktur_agrees(k),
        Variant::BoldScript => bold_script_agrees(k),
        Variant::Circled => circled_agrees(k),
        Variant::Comma => comma_agrees(k),
        Variant::DoubleStruck => double_struck_agrees(k),
        Variant::DoubleStruckItalic => double_struck_italic_agrees(k),
        Variant::Fraktur => fraktur_agrees(k),
        Variant::FullStop => full_stop_agrees(k),
        Variant::Fullwidth => fullwidth_agrees(k),
        Variant::Italic => italic_agrees(k),
        Variant::Looped => looped_agrees(k),
        Variant::Monospace => monospace_agrees(k),
        Variant::NegativeCircled => negative_circled_agrees(k),
        Variant::NegativeSquared => negative_squared_agrees(k),
        Variant::Regional => regional_agrees(k),
        Variant::Segmented => segmented_agrees(k),
        Variant::Other => other_agrees(k),
        Variant::Parenthesized => parenthesized_agrees(k),
        Variant::Plain => plain_is_idempotent(k),
        Variant::SansSerifBoldItalic => sans_serif_bold_italic_agrees(k),
        Variant::SansSerifBold => sans_serif_bold_agrees(k),
        Variant::SansSerifItalic => sans_serif_italic_agrees(k),
        Variant::SansSerif => sans_serif_agrees(k),
        Variant::MathematicalScript => mathematical_script_agrees(k),
        Variant::Script => script_agrees(k),
        Variant::SmallCapital => small_capital_agrees(k),
        Variant::Superscript => superscript_agrees(k),
        Variant::Subscript => subscript_agrees(k),
        Variant::Stretched => stretched_agrees(k),
        Variant::Squared => squared_agrees(k),
        Variant::Tailed => tailed_agrees(k),
        Variant::Wide => wide_agrees(k),
    }
}

/// The plain form of a supported code point is a plain scalar value.
pub proof fn plain_is_idempotent(c: int)
    ensures
        plain_code(c) matches Some(p) ==> plain_code(p) == Some(p) && is_scalar(p),
{
}

} // verus!
