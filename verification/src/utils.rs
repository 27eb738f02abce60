use vstd::prelude::*;
use vstd::string::StrSliceExecFns;
use vstd::utf8::char_is_scalar;

verus! {

/// The UTF-16 code units encoding one character: a character below 0x10000 is
/// its own single unit; any other is split into a high and a low surrogate.
pub open spec fn utf16_units_of_char(c: char) -> Seq<u16> {
    if (c as u32) < 0x10000 {
        seq![c as u16]
    } else {
        seq![
            (0xD800 + (((c as u32) - 0x10000) / 0x400)) as u16,
            (0xDC00 + (((c as u32) - 0x10000) % 0x400)) as u16,
        ]
    }
}

/// The UTF-16 code units encoding a character sequence, in order.
pub open spec fn utf16_units(s: Seq<char>) -> Seq<u16>
    decreases s.len(),
{
    if s.len() == 0 {
        Seq::empty()
    } else {
        utf16_units_of_char(s[0]) + utf16_units(s.drop_first())
    }
}

/// Encoding one more character appends its units.
proof fn lemma_utf16_units_push(s: Seq<char>, c: char)
    ensures
        utf16_units(s.push(c)) == utf16_units(s) + utf16_units_of_char(c),
    decreases s.len(),
{
    reveal_with_fuel(utf16_units, 3);
    if s.len() == 0 {
        assert(s.push(c).drop_first() =~= Seq::<char>::empty());
        assert(utf16_units(s.push(c)) =~= utf16_units(s) + utf16_units_of_char(c));
    } else {
        lemma_utf16_units_push(s.drop_first(), c);
        assert(s.push(c).drop_first() =~= s.drop_first().push(c));
        assert(utf16_units(s.push(c)) =~= utf16_units(s) + utf16_units_of_char(c));
    }
}

/// Conversion to the nul-terminated UTF-16 form that wide-string consumers
/// expect.
pub trait ToU16Vec {
    /// The code units the conversion must produce.
    spec fn spec_units(&self) -> Seq<u16>;

    /// Encode as UTF-16 code units followed by one nul terminator.
    fn to_u16_vec(&self) -> (r: Vec<u16>)
        ensures
            r@ == self.spec_units(),
    ;
}

impl ToU16Vec for &str {
    open spec fn spec_units(&self) -> Seq<u16> {
        utf16_units(self@) + seq![0u16]
    }

    fn to_u16_vec(&self) -> (r: Vec<u16>) {
        let n = self.unicode_len();
        let mut buf: Vec<u16> = Vec::new();
        let mut i: usize = 0;
        proof {
            assert(self@.subrange(0, 0) =~= Seq::<char>::empty());
        }
        while i < n
            invariant
                n == self@.len(),
                i <= n,
                buf@ == utf16_units(self@.subrange(0, i as int)),
            decreases n - i,
        {
            let c = self.get_char(i);
            proof {
                char_is_scalar(c);
            }
            let u = c as u32;
            if u < 0x10000 {
                buf.push(u as u16);
            } else {
                let v = u - 0x10000;
                buf.push((0xD800 + v / 0x400) as u16);
                buf.push((0xDC00 + v % 0x400) as u16);
            }
            proof {
                assert(self@.subrange(0, i as int + 1) =~= self@.subrange(0, i as int).push(
                    self@[i as int],
                ));
                lemma_utf16_units_push(self@.subrange(0, i as int), self@[i as int]);
            }
            i += 1;
        }
        proof {
            assert(self@.subrange(0, n as int) =~= self@);
        }
        buf.push(0);
        buf
    }
}

} // verus!
