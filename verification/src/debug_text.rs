use vstd::prelude::*;
use crate::nes::CpuInfo;
use crate::text::{hex2, hex4, hex_pad, dec_pad, push_hex, push_dec, push_text};

verus! {

/// Number of bytes on a line of the memory view.
pub const BYTES_PER_LINE: u8 = 40;

/// Bytes in hexadecimal, separated by single spaces.
pub open spec fn hex_bytes_joined(bytes: Seq<u8>) -> Seq<char>
    decreases bytes.len(),
{
    if bytes.len() == 0 {
        Seq::empty()
    } else if bytes.len() == 1 {
        hex2(bytes[0])
    } else {
        hex_bytes_joined(bytes.drop_last()) + seq![' '] + hex2(bytes.last())
    }
}

/// The number of lines of the memory view of `n` bytes.
pub open spec fn line_count(n: nat) -> nat {
    (n + 39) / 40
}

/// Line `j` of the memory view of `bytes`, which start at address `start`:
/// `[first-last]` and the bytes of the line, then a line break.
pub open spec fn bytes_line(start: u16, bytes: Seq<u8>, j: nat) -> Seq<char> {
    let lo: int = 40 * j as int;
    let hi: int = if 40 * j + 40 <= bytes.len() {
        lo + 40
    } else {
        bytes.len() as int
    };
    seq!['['] + hex4((start + lo) as u16) + seq!['-'] + hex4((start + hi - 1) as u16) + seq![
        ']',
        ' ',
    ] + hex_bytes_joined(bytes.subrange(lo, hi)) + seq!['\n']
}

/// The first `k` lines of the memory view.
pub open spec fn bytes_lines(start: u16, bytes: Seq<u8>, k: nat) -> Seq<char>
    decreases k,
{
    if k == 0 {
        Seq::empty()
    } else {
        bytes_lines(start, bytes, (k - 1) as nat) + bytes_line(start, bytes, (k - 1) as nat)
    }
}

/// The memory view: the lines one after the other, without the last line
/// break.
pub open spec fn bytes_view(start: u16, bytes: Seq<u8>) -> Seq<char> {
    let all = bytes_lines(start, bytes, line_count(bytes.len()));
    if all.len() > 0 {
        all.drop_last()
    } else {
        all
    }
}

/// The registers panel of the debugger.
pub open spec fn cpu_info_text(info: CpuInfo) -> Seq<char> {
    seq!['P', 'C', ':', '\t'] + hex4(info.program_counter) + seq!['\n', 'S', 'P', ':', '\t']
        + hex_pad(info.stack_pointer as nat, 4) + seq!['\n', 'A', ':', '\t', '\t', '('] + dec_pad(
        info.reg_a as nat,
        3,
    ) + seq![')', ' '] + hex2(info.reg_a) + seq!['\n', 'X', ':', '\t', '\t', '('] + dec_pad(
        info.reg_x as nat,
        3,
    ) + seq![')', ' '] + hex2(info.reg_x) + seq!['\n', 'Y', ':', '\t', '\t', '('] + dec_pad(
        info.reg_y as nat,
        3,
    ) + seq![')', ' '] + hex2(info.reg_y) + seq!['\n']
}

/// The text panels of the debugger.
pub struct NesDisplay;

impl NesDisplay {
    /// Appends one line of the memory view, without its line break.
    fn push_bytes_line(s: &mut String, start: u16, bytes: &[u8], j: usize)
        requires
            40 * j < bytes@.len(),
            start + bytes@.len() <= 0x10000,
        ensures
            final(s)@ + seq!['\n'] == old(s)@ + bytes_line(start, bytes@, j as nat),
    {
        proof {
            reveal_strlit("[");
            reveal_strlit("-");
            reveal_strlit("] ");
            reveal_strlit(" ");
        }
        let lo = 40 * j;
        let hi = if 40 * j + 40 <= bytes.len() {
            40 * j + 40
        } else {
            bytes.len()
        };
        push_text(s, "[");
        push_hex(s, start + lo as u16, 4);
        push_text(s, "-");
        push_hex(s, start + (hi - 1) as u16, 4);
        push_text(s, "] ");
        let ghost head = s@;
        let mut i = lo;
        while i < hi
            invariant
                lo < hi <= bytes@.len(),
                lo <= i <= hi,
                s@ == head + hex_bytes_joined(bytes@.subrange(lo as int, i as int)),
            decreases hi - i,
        {
            proof {
                reveal_strlit(" ");
            }
            let ghost before = bytes@.subrange(lo as int, i as int);
            if i > lo {
                push_text(s, " ");
            }
            push_hex(s, bytes[i] as u16, 2);
            i = i + 1;
            proof {
                let now = bytes@.subrange(lo as int, i as int);
                assert(now.drop_last() =~= before);
                if i - 1 == lo {
                    assert(now =~= seq![bytes@[lo as int]]);
                }
            }
        }
        assert(s@ + seq!['\n'] =~= old(s)@ + bytes_line(start, bytes@, j as nat));
    }

    /// The memory view of the debugger: `bytes_range.2` holds the bytes
    /// from address `bytes_range.0` on; they are shown 40 to a line, each
    /// line headed by the addresses of its first and last byte.
    pub fn bytes_to_string(bytes_range: (u16, u16, &[u8])) -> (r: String)
        requires
            bytes_range.0 + bytes_range.2@.len() <= 0x10000,
        ensures
            r@ == bytes_view(bytes_range.0, bytes_range.2@),
    {
        let start = bytes_range.0;
        let bytes = bytes_range.2;
        let mut r = String::new();
        let n = bytes.len();
        if n == 0 {
            return r;
        }
        let lines = (n + 39) / 40;
        let mut j: usize = 0;
        while j < lines
            invariant
                n == bytes@.len(),
                0 < n,
                start + n <= 0x10000,
                lines == line_count(n as nat),
                j <= lines,
                j > 0 ==> r@ + seq!['\n'] == bytes_lines(start, bytes@, j as nat),
                j == 0 ==> r@ == Seq::<char>::empty(),
            decreases lines - j,
        {
            proof {
                reveal_strlit("\n");
            }
            let ghost prev = r@;
            if j > 0 {
                push_text(&mut r, "\n");
            }
            let ghost mid = r@;
            Self::push_bytes_line(&mut r, start, bytes, j);
            proof {
                if j > 0 {
                    assert(mid == prev + seq!['\n']);
                    assert(r@ + seq!['\n'] == mid + bytes_line(start, bytes@, j as nat));
                    assert(r@ + seq!['\n'] =~= bytes_lines(start, bytes@, j as nat) + bytes_line(
                        start,
                        bytes@,
                        j as nat,
                    ));
                } else {
                    assert(r@ + seq!['\n'] =~= bytes_lines(start, bytes@, 0) + bytes_line(
                        start,
                        bytes@,
                        0,
                    ));
                }
            }
            j = j + 1;
        }
        proof {
            let all = bytes_lines(start, bytes@, line_count(n as nat));
            assert(all.drop_last() =~= r@);
        }
        r
    }

    /// The registers panel of the debugger: program counter, stack pointer,
    /// and the three registers in decimal and hexadecimal.
    pub fn cpu_info_to_string(cpu_info: CpuInfo) -> (r: String)
        ensures
            r@ == cpu_info_text(cpu_info),
    {
        proof {
            reveal_strlit("PC:\t");
            reveal_strlit("\nSP:\t");
            reveal_strlit("\nA:\t\t(");
            reveal_strlit(") ");
            reveal_strlit("\nX:\t\t(");
            reveal_strlit("\nY:\t\t(");
            reveal_strlit("\n");
        }
        let mut s = String::new();
        push_text(&mut s, "PC:\t");
        push_hex(&mut s, cpu_info.program_counter, 4);
        push_text(&mut s, "\nSP:\t");
        push_hex(&mut s, cpu_info.stack_pointer as u16, 4);
        push_text(&mut s, "\nA:\t\t(");
        push_dec(&mut s, cpu_info.reg_a as u16, 3);
        push_text(&mut s, ") ");
        push_hex(&mut s, cpu_info.reg_a as u16, 2);
        push_text(&mut s, "\nX:\t\t(");
        push_dec(&mut s, cpu_info.reg_x as u16, 3);
        push_text(&mut s, ") ");
        push_hex(&mut s, cpu_info.reg_x as u16, 2);
        push_text(&mut s, "\nY:\t\t(");
        push_dec(&mut s, cpu_info.reg_y as u16, 3);
        push_text(&mut s, ") ");
        push_hex(&mut s, cpu_info.reg_y as u16, 2);
        push_text(&mut s, "\n");
        assert(s@ =~= cpu_info_text(cpu_info));
        s
    }
}

} // verus!
