use vstd::prelude::*;

verus! {

/// The bytes `n` takes in `len` bytes, least significant first.
pub open spec fn le_bytes(n: nat, len: nat) -> Seq<u8>
    decreases len,
{
    if len == 0 {
        Seq::empty()
    } else {
        seq![(n % 256) as u8] + le_bytes(n / 256, (len - 1) as nat)
    }
}

/// `bytes` is how a value of `len` bytes and unsigned value `n` sits in memory:
/// least significant byte first on little-endian targets, last on big-endian ones.
pub open spec fn native_order(n: nat, len: nat, bytes: Seq<u8>) -> bool {
    bytes == le_bytes(n, len) || bytes == le_bytes(n, len).reverse()
}

pub open spec fn digit_char(d: nat) -> char {
    if d == 0 {
        '0'
    } else if d == 1 {
        '1'
    } else if d == 2 {
        '2'
    } else if d == 3 {
        '3'
    } else if d == 4 {
        '4'
    } else if d == 5 {
        '5'
    } else if d == 6 {
        '6'
    } else if d == 7 {
        '7'
    } else if d == 8 {
        '8'
    } else {
        '9'
    }
}

/// Decimal digits of `n`, most significant first, without leading zeros.
pub open spec fn decimal(n: nat) -> Seq<char>
    decreases n,
{
    if n < 10 {
        seq![digit_char(n)]
    } else {
        decimal(n / 10).push(digit_char(n % 10))
    }
}

/// Decimal rendering of an integer, with a leading `-` when it is negative.
pub open spec fn signed_decimal(i: int) -> Seq<char> {
    if i < 0 {
        seq!['-'] + decimal((-i) as nat)
    } else {
        decimal(i as nat)
    }
}

fn digit_str(d: u64) -> (r: &'static str)
    requires
        d < 10,
    ensures
        r@ == seq![digit_char(d as nat)],
{
    proof {
        reveal_strlit("0");
        reveal_strlit("1");
        reveal_strlit("2");
        reveal_strlit("3");
        reveal_strlit("4");
        reveal_strlit("5");
        reveal_strlit("6");
        reveal_strlit("7");
        reveal_strlit("8");
        reveal_strlit("9");
    }
    if d == 0 {
        "0"
    } else if d == 1 {
        "1"
    } else if d == 2 {
        "2"
    } else if d == 3 {
        "3"
    } else if d == 4 {
        "4"
    } else if d == 5 {
        "5"
    } else if d == 6 {
        "6"
    } else if d == 7 {
        "7"
    } else if d == 8 {
        "8"
    } else {
        "9"
    }
}

/// Renders `n` in decimal.
pub fn decimal_text(n: u64) -> (r: String)
    ensures
        r@ == decimal(n as nat),
    decreases n,
{
    if n < 10 {
        String::from_str(digit_str(n))
    } else {
        let mut s = decimal_text(n / 10);
        s.append(digit_str(n % 10));
        s
    }
}

/// Renders `i` in decimal, with a leading `-` when it is negative.
pub fn signed_decimal_text(i: i64) -> (r: String)
    ensures
        r@ == signed_decimal(i as int),
{
    if i < 0 {
        let magnitude: u64 = (0i128 - i as i128) as u64;
        let digits = decimal_text(magnitude);
        proof {
            reveal_strlit("-");
        }
        let mut s = String::from_str("-");
        s.append(digits.as_str());
        s
    } else {
        decimal_text(i as u64)
    }
}

/// A numeric type that can be a pixel's component: it has a fixed in-memory
/// size, a native byte representation and a decimal rendering.
pub trait Component: Copy + Sized {
    /// Size of one value in bytes.
    spec fn byte_size() -> nat;

    /// `bytes` is the in-memory representation of `self` on the host.
    spec fn is_native_repr(self, bytes: Seq<u8>) -> bool;

    /// Decimal rendering of `self`.
    spec fn text(self) -> Seq<char>;

    fn native_bytes(self) -> (r: Vec<u8>)
        ensures
            r@.len() == Self::byte_size(),
            self.is_native_repr(r@),
    ;

    fn to_text(self) -> (r: String)
        ensures
            r@ == self.text(),
    ;
}

/// Relies on u16::to_ne_bytes: the two bytes of `x` in the host's byte order.
#[verifier::external_body]
fn u16_ne_bytes(x: u16) -> (r: [u8; 2])
    ensures
        native_order(x as nat, 2, r@),
{
    x.to_ne_bytes()
}

/// Relies on i16::to_ne_bytes: the two bytes of `x` in the host's byte order.
#[verifier::external_body]
fn i16_ne_bytes(x: i16) -> (r: [u8; 2])
    ensures
        native_order(x as u16 as nat, 2, r@),
{
    x.to_ne_bytes()
}

/// Relies on u32::to_ne_bytes: the four bytes of `x` in the host's byte order.
#[verifier::external_body]
fn u32_ne_bytes(x: u32) -> (r: [u8; 4])
    ensures
        native_order(x as nat, 4, r@),
{
    x.to_ne_bytes()
}

/// Relies on i32::to_ne_bytes: the four bytes of `x` in the host's byte order.
#[verifier::external_body]
fn i32_ne_bytes(x: i32) -> (r: [u8; 4])
    ensures
        native_order(x as u32 as nat, 4, r@),
{
    x.to_ne_bytes()
}

impl Component for u8 {
    open spec fn byte_size() -> nat {
        1
    }

    open spec fn is_native_repr(self, bytes: Seq<u8>) -> bool {
        bytes == seq![self]
    }

    open spec fn text(self) -> Seq<char> {
        decimal(self as nat)
    }

    fn native_bytes(self) -> (r: Vec<u8>) {
        let r = vec![self];
        assert(r@ =~= seq![self]);
        r
    }

    fn to_text(self) -> (r: String) {
        decimal_text(self as u64)
    }
}

impl Component for u16 {
    open spec fn byte_size() -> nat {
        2
    }

    open spec fn is_native_repr(self, bytes: Seq<u8>) -> bool {
        native_order(self as nat, 2, bytes)
    }

    open spec fn text(self) -> Seq<char> {
        decimal(self as nat)
    }

    fn native_bytes(self) -> (r: Vec<u8>) {
        let b = u16_ne_bytes(self);
        let r = vec![b[0], b[1]];
        assert(r@ =~= b@);
        r
    }

    fn to_text(self) -> (r: String) {
        decimal_text(self as u64)
    }
}

impl Component for i16 {
    open spec fn byte_size() -> nat {
        2
    }

    open spec fn is_native_repr(self, bytes: Seq<u8>) -> bool {
        native_order(self as u16 as nat, 2, bytes)
    }

    open spec fn text(self) -> Seq<char> {
        signed_decimal(self as int)
    }

    fn native_bytes(self) -> (r: Vec<u8>) {
        let b = i16_ne_bytes(self);
        let r = vec![b[0], b[1]];
        assert(r@ =~= b@);
        r
    }

    fn to_text(self) -> (r: String) {
        signed_decimal_text(self as i64)
    }
}

impl Component for u32 {
    open spec fn byte_size() -> nat {
        4
    }

    open spec fn is_native_repr(self, bytes: Seq<u8>) -> bool {
        native_order(self as nat, 4, bytes)
    }

    open spec fn text(self) -> Seq<char> {
        decimal(self as nat)
    }

    fn native_bytes(self) -> (r: Vec<u8>) {
        let b = u32_ne_bytes(self);
        let r = vec![b[0], b[1], b[2], b[3]];
        assert(r@ =~= b@);
        r
    }

    fn to_text(self) -> (r: String) {
        decimal_text(self as u64)
    }
}

impl Component for i32 {
    open spec fn byte_size() -> nat {
        4
    }

    open spec fn is_native_repr(self, bytes: Seq<u8>) -> bool {
        native_order(self as u32 as nat, 4, bytes)
    }

    open spec fn text(self) -> Seq<char> {
        signed_decimal(self as int)
    }

    fn native_bytes(self) -> (r: Vec<u8>) {
        let b = i32_ne_bytes(self);
        let r = vec![b[0], b[1], b[2], b[3]];
        assert(r@ =~= b@);
        r
    }

    fn to_text(self) -> (r: String) {
        signed_decimal_text(self as i64)
    }
}

/// `bytes` lays out the components `cs` one after another, each in its
/// native representation: the bytes of component `k` sit at
/// `[k * size, (k + 1) * size)`.
pub open spec fn bytes_of<T: Component>(cs: Seq<T>, bytes: Seq<u8>) -> bool {
    &&& bytes.len() == cs.len() * T::byte_size()
    &&& forall|k: int|
        0 <= k < cs.len() ==> #[trigger] cs[k].is_native_repr(
            bytes.subrange(k * T::byte_size(), (k + 1) * T::byte_size()),
        )
}

/// The native bytes of `cs`, one component after another.
pub fn components_to_bytes<T: Component>(cs: &[T]) -> (r: Vec<u8>)
    requires
        cs@.len() * T::byte_size() <= usize::MAX,
    ensures
        bytes_of(cs@, r@),
{
    let mut out: Vec<u8> = Vec::new();
    let mut i: usize = 0;
    while i < cs.len()
        invariant
            i <= cs@.len(),
            cs@.len() * T::byte_size() <= usize::MAX,
            bytes_of(cs@.subrange(0, i as int), out@),
        decreases cs@.len() - i,
    {
        let chunk = cs[i].native_bytes();
        let ghost prev = out@;
        let ghost size = T::byte_size();
        let ghost n = i as int;
        proof {
            assert((n + 1) * size == n * size + size) by (nonlinear_arith);
            assert((n + 1) * size <= cs@.len() * size) by (nonlinear_arith)
                requires
                    n + 1 <= cs@.len(),
            ;
        }
        let mut j: usize = 0;
        while j < chunk.len()
            invariant
                j <= chunk@.len(),
                chunk@.len() == size,
                out@ == prev + chunk@.subrange(0, j as int),
                prev.len() == n * size,
                (n + 1) * size <= usize::MAX,
            decreases chunk@.len() - j,
        {
            out.push(chunk[j]);
            j = j + 1;
            assert(out@ =~= prev + chunk@.subrange(0, j as int));
        }
        assert(out@ =~= prev + chunk@);
        proof {
            let done = cs@.subrange(0, n + 1);
            assert forall|k: int| 0 <= k < done.len() implies #[trigger] done[k].is_native_repr(
                out@.subrange(k * size, (k + 1) * size),
            ) by {
                if k < n {
                    assert((k + 1) * size <= n * size) by (nonlinear_arith)
                        requires
                            k + 1 <= n,
                            size >= 0,
                    ;
                    assert(0 <= k * size <= (k + 1) * size) by (nonlinear_arith)
                        requires
                            0 <= k,
                            size >= 0,
                    ;
                    assert(prev.len() == n * size);
                    assert(out@.subrange(k * size, (k + 1) * size) =~= prev.subrange(
                        k * size,
                        (k + 1) * size,
                    ));
                    assert(cs@.subrange(0, n)[k] == done[k]);
                } else {
                    assert(out@.subrange(k * size, (k + 1) * size) =~= chunk@);
                }
            }
        }
        i = i + 1;
    }
    assert(cs@.subrange(0, cs@.len() as int) =~= cs@);
    out
}

/// Casting a pixel to its components and to its raw bytes.
pub trait ComponentBytes<T: Component> {
    /// The components in field order: the first named field comes first.
    spec fn components(&self) -> Seq<T>;

    /// The components as a sequence, the first named field first.
    fn as_slice(&self) -> (r: Vec<T>)
        ensures
            r@ == self.components(),
    ;

    /// Overwrites the components, in field order, with `values`.
    fn set_components(&mut self, values: &[T])
        requires
            values@.len() == old(self).components().len(),
        ensures
            final(self).components() == values@,
    ;

    /// The components as raw bytes in the host's byte order: the bytes of the
    /// first component come first.
    fn as_bytes(&self) -> (r: Vec<u8>)
        requires
            self.components().len() * T::byte_size() <= usize::MAX,
        ensures
            bytes_of(self.components(), r@),
    ;
}

/// Casting a sequence of pixels to the raw bytes of all their components.
///
/// An escape hatch for interoperability with untyped buffers.
pub trait ByteSlice {
    /// `bytes` is the byte layout of `self`.
    spec fn is_byte_view(&self, bytes: Seq<u8>) -> bool;

    /// Whether the bytes of `self` fit in memory.
    spec fn bytes_fit(&self) -> bool;

    /// Read-only view of the bytes: the components of the first pixel come
    /// first, each in field order.
    fn as_bytes(&self) -> (r: Vec<u8>)
        requires
            self.bytes_fit(),
        ensures
            self.is_byte_view(r@),
    ;
}

/// Applying one operation to every component of a pixel.
pub trait ComponentMap<DestPixel, SrcComponent, DestComponent>: Sized {
    /// The components of `self` in field order.
    spec fn source_components(&self) -> Seq<SrcComponent>;

    /// The components of a result pixel in field order.
    spec fn dest_components(out: DestPixel) -> Seq<DestComponent>;

    /// Applies `f` to every component, first to last, and returns a pixel of
    /// the same shape, each component in the place of the one it came from.
    fn map<F: Fn(SrcComponent) -> DestComponent>(&self, f: F) -> (r: DestPixel)
        requires
            forall|i: int|
                0 <= i < self.source_components().len() ==> call_requires(
                    f,
                    (#[trigger] self.source_components()[i],),
                ),
        ensures
            Self::dest_components(r).len() == self.source_components().len(),
            forall|i: int|
                0 <= i < self.source_components().len() ==> call_ensures(
                    f,
                    (#[trigger] self.source_components()[i],),
                    Self::dest_components(r)[i],
                ),
    ;
}

} // verus!
