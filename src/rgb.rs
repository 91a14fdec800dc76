use vstd::prelude::*;

use crate::pixel::{
    bytes_of, components_to_bytes, ByteSlice, Component, ComponentBytes, ComponentMap,
};

verus! {

/// A pixel of three components: red, green and blue, in that order.
#[derive(Clone, Copy, Debug, PartialEq, Eq, PartialOrd, Ord, Hash, Default, Structural)]
pub struct RGB<T> {
    /// Red
    pub r: T,
    /// Green
    pub g: T,
    /// Blue
    pub b: T,
}

impl<T> RGB<T> {
    /// The components in field order.
    pub open spec fn channels(self) -> Seq<T> {
        seq![self.r, self.g, self.b]
    }

    /// The pixel whose components, in field order, are the first three of `s`.
    pub open spec fn from_channels(s: Seq<T>) -> RGB<T>
        recommends
            s.len() == 3,
    {
        RGB { r: s[0], g: s[1], b: s[2] }
    }

    /// The pixel with `f` applied to every component.
    pub open spec fn map_spec<U>(self, f: spec_fn(T) -> U) -> RGB<U> {
        RGB { r: f(self.r), g: f(self.g), b: f(self.b) }
    }

    /// Each component of `out` is a result of `f` on the same component of `self`.
    pub open spec fn is_mapped_by<U, F: Fn(T) -> U>(self, f: F, out: RGB<U>) -> bool {
        &&& call_ensures(f, (self.r,), out.r)
        &&& call_ensures(f, (self.g,), out.g)
        &&& call_ensures(f, (self.b,), out.b)
    }

    /// Builds a pixel from its three components.
    pub fn new(r: T, g: T, b: T) -> (p: RGB<T>)
        ensures
            p == (RGB { r, g, b }),
    {
        RGB { r, g, b }
    }
}

impl<T: Copy> RGB<T> {
    /// The components in field order, red first.
    pub fn iter(&self) -> (r: Vec<T>)
        ensures
            r@ == self.channels(),
    {
        let r = vec![self.r, self.g, self.b];
        assert(r@ =~= self.channels());
        r
    }

    /// The pixel whose components are `values`, in field order.
    pub fn from_components(values: &[T]) -> (p: RGB<T>)
        requires
            values@.len() == 3,
        ensures
            p == RGB::from_channels(values@),
    {
        RGB { r: values[0], g: values[1], b: values[2] }
    }
}

/// The rendering `rgb(r,g,b)`.
pub open spec fn rgb_text<T: Component>(p: RGB<T>) -> Seq<char> {
    seq!['r', 'g', 'b', '('] + p.r.text() + seq![','] + p.g.text() + seq![','] + p.b.text()
        + seq![')']
}

impl<T: Component> RGB<T> {
    /// Human-readable rendering, such as `rgb(1,2,3)`.
    pub fn to_string(&self) -> (s: String)
        ensures
            s@ == rgb_text(*self),
    {
        proof {
            reveal_strlit("rgb(");
            reveal_strlit(",");
            reveal_strlit(")");
        }
        let mut s = String::from_str("rgb(");
        s.append(self.r.to_text().as_str());
        s.append(",");
        s.append(self.g.to_text().as_str());
        s.append(",");
        s.append(self.b.to_text().as_str());
        s.append(")");
        assert(s@ =~= rgb_text(*self));
        s
    }
}

impl<T: Component> ComponentBytes<T> for RGB<T> {
    open spec fn components(&self) -> Seq<T> {
        self.channels()
    }

    fn as_slice(&self) -> (r: Vec<T>) {
        self.iter()
    }

    fn set_components(&mut self, values: &[T]) {
        self.r = values[0];
        self.g = values[1];
        self.b = values[2];
        assert(self.channels() =~= values@);
    }

    fn as_bytes(&self) -> (r: Vec<u8>)
        ensures
            r@.len() == 3 * T::byte_size(),
            self.r.is_native_repr(r@.subrange(0, T::byte_size() as int)),
            self.g.is_native_repr(r@.subrange(T::byte_size() as int, 2 * T::byte_size() as int)),
            self.b.is_native_repr(r@.subrange(2 * T::byte_size() as int, 3 * T::byte_size() as int)),
    {
        let cs = self.iter();
        let r = components_to_bytes(cs.as_slice());
        let ghost size = T::byte_size() as int;
        assert(cs@[0].is_native_repr(r@.subrange(0 * size, (0 + 1) * size)));
        assert(cs@[1].is_native_repr(r@.subrange(1 * size, (1 + 1) * size)));
        assert(cs@[2].is_native_repr(r@.subrange(2 * size, (2 + 1) * size)));
        r
    }
}

/// All components of `px`, pixel after pixel, each pixel in field order.
pub open spec fn rgb_flatten<T>(px: Seq<RGB<T>>) -> Seq<T>
    decreases px.len(),
{
    if px.len() == 0 {
        Seq::empty()
    } else {
        rgb_flatten(px.drop_last()) + px.last().channels()
    }
}

impl<T: Component> ByteSlice for [RGB<T>] {
    open spec fn is_byte_view(&self, bytes: Seq<u8>) -> bool {
        bytes_of(rgb_flatten(self@), bytes)
    }

    open spec fn bytes_fit(&self) -> bool {
        3 * self@.len() * T::byte_size() <= usize::MAX
    }

    fn as_bytes(&self) -> (r: Vec<u8>) {
        let mut all: Vec<T> = Vec::new();
        let mut i: usize = 0;
        while i < self.len()
            invariant
                i <= self@.len(),
                all@ == rgb_flatten(self@.subrange(0, i as int)),
                all@.len() == 3 * i,
            decreases self@.len() - i,
        {
            let p = self[i];
            all.push(p.r);
            all.push(p.g);
            all.push(p.b);
            assert(self@.subrange(0, i + 1).drop_last() =~= self@.subrange(0, i as int));
            assert(all@ =~= rgb_flatten(self@.subrange(0, i + 1)));
            i = i + 1;
        }
        assert(self@.subrange(0, self@.len() as int) =~= self@);
        components_to_bytes(all.as_slice())
    }
}

impl<T: Copy, U> ComponentMap<RGB<U>, T, U> for RGB<T> {
    open spec fn source_components(&self) -> Seq<T> {
        self.channels()
    }

    open spec fn dest_components(out: RGB<U>) -> Seq<U> {
        out.channels()
    }

    fn map<F: Fn(T) -> U>(&self, f: F) -> (r: RGB<U>)
        ensures
            self.is_mapped_by(f, r),
    {
        assert(<RGB<T> as ComponentMap<RGB<U>, T, U>>::source_components(self)[0] == self.r);
        assert(<RGB<T> as ComponentMap<RGB<U>, T, U>>::source_components(self)[1] == self.g);
        assert(<RGB<T> as ComponentMap<RGB<U>, T, U>>::source_components(self)[2] == self.b);
        let r = RGB { r: f(self.r), g: f(self.g), b: f(self.b) };
        assert(Self::dest_components(r)[0] == r.r);
        assert(Self::dest_components(r)[1] == r.g);
        assert(Self::dest_components(r)[2] == r.b);
        r
    }
}

/// Collecting the components of `x` back into a pixel gives `x`.
pub proof fn rgb_round_trip<T>(x: RGB<T>)
    ensures
        RGB::from_channels(x.channels()) == x,
{
}

/// Mapping with a function that returns its argument gives the pixel back.
pub proof fn rgb_map_identity<T, F: Fn(T) -> T>(x: RGB<T>, f: F, out: RGB<T>)
    requires
        forall|v: T, w: T| call_ensures(f, (v,), w) ==> w == v,
        x.is_mapped_by(f, out),
    ensures
        out == x,
{
}

/// Mapping with `f` and then with `g` gives what mapping once with `g ∘ f` gives.
pub proof fn rgb_map_composition<T, U, V, F: Fn(T) -> U, G: Fn(U) -> V, H: Fn(T) -> V>(
    x: RGB<T>,
    f: F,
    g: G,
    h: H,
    f_spec: spec_fn(T) -> U,
    g_spec: spec_fn(U) -> V,
    y: RGB<U>,
    z: RGB<V>,
    w: RGB<V>,
)
    requires
        forall|v: T, u: U| call_ensures(f, (v,), u) ==> u == f_spec(v),
        forall|u: U, v: V| call_ensures(g, (u,), v) ==> v == g_spec(u),
        forall|t: T, v: V| call_ensures(h, (t,), v) ==> v == g_spec(f_spec(t)),
        x.is_mapped_by(f, y),
        y.is_mapped_by(g, z),
        x.is_mapped_by(h, w),
    ensures
        z == w,
        z == x.map_spec(f_spec).map_spec(g_spec),
        w == x.map_spec(|t: T| g_spec(f_spec(t))),
{
}

} // verus!
