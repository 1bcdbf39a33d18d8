//! Textual rendering of a buffer: a length header followed by a
//! bracket-delimited, comma-separated listing of every element in index
//! order.

use vstd::prelude::*;
use crate::Caja;

verus! {

/// The character for one decimal digit.
pub open spec fn digit_char(d: nat) -> char {
    if d == 0 {
        '0'
    } else if d == 1 {
        '1'
    } else if d == 2 {
        '2'
    } else if d == 3 {
        '3'
    } else if d == 4 {
        '4'
    } else if d == 5 {
        '5'
    } else if d == 6 {
        '6'
    } else if d == 7 {
        '7'
    } else if d == 8 {
        '8'
    } else {
        '9'
    }
}

/// The decimal rendering of `n`, most significant digit first, with no sign
/// and no leading zeros (a single `'0'` for zero itself).
pub open spec fn dec_digits(n: nat) -> Seq<char>
    decreases n,
{
    if n < 10 {
        seq![digit_char(n)]
    } else {
        dec_digits(n / 10) + seq![digit_char(n % 10)]
    }
}

/// Renders `n` in decimal.
pub fn render_u64(n: u64) -> (s: String)
    ensures
        s@ == dec_digits(n as nat),
    decreases n,
{
    let d: u64 = n % 10;
    let ds: &str = if d == 0 {
        "0"
    } else if d == 1 {
        "1"
    } else if d == 2 {
        "2"
    } else if d == 3 {
        "3"
    } else if d == 4 {
        "4"
    } else if d == 5 {
        "5"
    } else if d == 6 {
        "6"
    } else if d == 7 {
        "7"
    } else if d == 8 {
        "8"
    } else {
        "9"
    };
    proof {
        reveal_strlit("0");
        reveal_strlit("1");
        reveal_strlit("2");
        reveal_strlit("3");
        reveal_strlit("4");
        reveal_strlit("5");
        reveal_strlit("6");
        reveal_strlit("7");
        reveal_strlit("8");
        reveal_strlit("9");
        assert(ds@ =~= seq![digit_char((n % 10) as nat)]);
    }
    if n < 10 {
        let s = ds.to_owned();
        proof {
            assert(s@ =~= dec_digits(n as nat));
        }
        s
    } else {
        let mut s = render_u64(n / 10);
        s.append(ds);
        proof {
            assert(s@ =~= dec_digits(n as nat));
        }
        s
    }
}

/// An element type with a textual rendering.
pub trait Render {
    /// What the rendering of a value is, as a sequence of characters.
    spec fn render_spec(&self) -> Seq<char>;

    /// Produces the rendering.
    fn render(&self) -> (s: String)
        ensures
            s@ == self.render_spec(),
    ;
}

impl Render for u8 {
    open spec fn render_spec(&self) -> Seq<char> {
        dec_digits(*self as nat)
    }

    fn render(&self) -> String {
        render_u64(*self as u64)
    }
}

impl Render for u16 {
    open spec fn render_spec(&self) -> Seq<char> {
        dec_digits(*self as nat)
    }

    fn render(&self) -> String {
        render_u64(*self as u64)
    }
}

impl Render for u32 {
    open spec fn render_spec(&self) -> Seq<char> {
        dec_digits(*self as nat)
    }

    fn render(&self) -> String {
        render_u64(*self as u64)
    }
}

impl Render for u64 {
    open spec fn render_spec(&self) -> Seq<char> {
        dec_digits(*self as nat)
    }

    fn render(&self) -> String {
        render_u64(*self)
    }
}

impl Render for usize {
    open spec fn render_spec(&self) -> Seq<char> {
        dec_digits(*self as nat)
    }

    fn render(&self) -> String {
        render_u64(*self as u64)
    }
}

impl Render for bool {
    open spec fn render_spec(&self) -> Seq<char> {
        if *self {
            "true"@
        } else {
            "false"@
        }
    }

    fn render(&self) -> String {
        if *self {
            "true".to_owned()
        } else {
            "false".to_owned()
        }
    }
}

/// The renderings of all elements of `s` in index order, separated by
/// a comma and a space; empty for an empty sequence.
pub open spec fn comma_joined<T: Render>(s: Seq<T>) -> Seq<char>
    decreases s.len(),
{
    if s.len() == 0 {
        Seq::empty()
    } else if s.len() == 1 {
        s.last().render_spec()
    } else {
        comma_joined(s.drop_last()) + ", "@ + s.last().render_spec()
    }
}

/// The full textual rendering of a buffer whose elements are `s`: a length
/// header, then every element in index order between brackets.
pub open spec fn display_of<T: Render>(s: Seq<T>) -> Seq<char> {
    "Length : "@ + dec_digits(s.len()) + "\nData : [ "@ + comma_joined(s) + " ]\n"@
}

impl<T: Render> Caja<T> {
    /// Renders the buffer as a length header followed by every element's
    /// rendering, in index order, comma-separated and bracket-delimited.
    pub fn to_display_string(&self) -> (s: String)
        ensures
            s@ == display_of(self@),
    {
        let n = self.len();
        let mut s = String::new();
        s.append("Length : ");
        let rendered_len = render_u64(n as u64);
        s.append(rendered_len.as_str());
        s.append("\nData : [ ");
        let ghost header: Seq<char> = "Length : "@ + dec_digits(n as nat) + "\nData : [ "@;
        proof {
            assert(s@ =~= header);
        }
        let mut i: usize = 0;
        while i < n
            invariant
                i <= n,
                n == self@.len(),
                s@ == header + comma_joined(self@.take(i as int)),
            decreases n - i,
        {
            if i > 0 {
                s.append(", ");
            }
            let rendered_elem = self.index(i).render();
            s.append(rendered_elem.as_str());
            proof {
                assert(self@.take(i + 1).drop_last() =~= self@.take(i as int));
                assert(self@.take(i + 1).last() == self@[i as int]);
                assert(s@ =~= header + comma_joined(self@.take(i + 1)));
            }
            i = i + 1;
        }
        s.append(" ]\n");
        proof {
            assert(self@.take(n as int) =~= self@);
            assert(s@ =~= display_of(self@));
        }
        s
    }
}

} // verus!
