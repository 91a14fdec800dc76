use vstd::prelude::*;

use crate::pixel::{
    bytes_of, components_to_bytes, ByteSlice, Component, ComponentBytes, ComponentMap,
};

verus! {

/// A pixel of four components: red, green, blue and alpha, in that order.
#[derive(Clone, Copy, Debug, PartialEq, Eq, PartialOrd, Ord, Hash, Default, Structural)]
pub struct RGBA<T> {
    /// Red
    pub r: T,
    /// Green
    pub g: T,
    /// Blue
    pub b: T,
    /// Alpha
    pub a: T,
}

impl<T> RGBA<T> {
    /// The components in field order.
    pub open spec fn channels(self) -> Seq<T> {
        seq![self.r, self.g, self.b, self.a]
    }

    /// The pixel whose components, in field order, are the first four of `s`.
    pub open spec fn from_channels(s: Seq<T>) -> RGBA<T>
        recommends
            s.len() == 4,
    {
        RGBA { r: s[0], g: s[1], b: s[2], a: s[3] }
    }

    /// The pixel with `f` applied to every component.
    pub open spec fn map_spec<U>(self, f: spec_fn(T) -> U) -> RGBA<U> {
        RGBA { r: f(self.r), g: f(self.g), b: f(self.b), a: f(self.a) }
    }

    /// Each component of `out` is a result of `f` on the same component of `self`.
    pub open spec fn is_mapped_by<U, F: Fn(T) -> U>(self, f: F, out: RGBA<U>) -> bool {
        &&& call_ensures(f, (self.r,), out.r)
        &&& call_ensures(f, (self.g,), out.g)
        &&& call_ensures(f, (self.b,), out.b)
        &&& call_ensures(f, (self.a,), out.a)
    }

    /// Builds a pixel from its four components.
    pub fn new(r: T, g: T, b: T, a: T) -> (p: RGBA<T>)
        ensures
            p == (RGBA { r, g, b, a }),
    {
        RGBA { r, g, b, a }
    }
}

impl<T: Copy> RGBA<T> {
    /// The components in field order, red first.
    pub fn iter(&self) -> (r: Vec<T>)
        ensures
            r@ == self.channels(),
    {
        let r = vec![self.r, self.g, self.b, self.a];
        assert(r@ =~= self.channels());
        r
    }

    /// The pixel whose components are `values`, in field order.
    pub fn from_components(values: &[T]) -> (p: RGBA<T>)
        requires
            values@.len() == 4,
        ensures
            p == RGBA::from_channels(values@),
    {
        RGBA { r: values[0], g: values[1], b: values[2], a: values[3] }
    }
}

/// The rendering `rgba(r,g,b,a)`.
pub open spec fn rgba_text<T: Component>(p: RGBA<T>) -> Seq<char> {
    seq!['r', 'g', 'b', 'a', '('] + p.r.text() + seq![','] + p.g.text() + seq![','] + p.b.text()
        + seq![','] + p.a.text() + seq![')']
}

impl<T: Component> RGBA<T> {
    /// Human-readable rendering, such as `rgba(1,2,3,4)`.
    pub fn to_string(&self) -> (s: String)
        ensures
            s@ == rgba_text(*self),
    {
        proof {
            reveal_strlit("rgba(");
            reveal_strlit(",");
            reveal_strlit(")");
        }
        let mut s = String::from_str("rgba(");
        s.append(self.r.to_text().as_str());
        s.append(",");
        s.append(self.g.to_text().as_str());
        s.append(",");
        s.append(self.b.to_text().as_str());
        s.append(",");
        s.append(self.a.to_text().as_str());
        s.append(")");
        assert(s@ =~= rgba_text(*self));
        s
    }
}

impl<T: Component> ComponentBytes<T> for RGBA<T> {
    open spec fn components(&self) -> Seq<T> {
        self.channels()
    }

    fn as_slice(&self) -> (r: Vec<T>) {
        self.iter()
    }

    fn set_components(&mut self, values: &[T]) {
        self.r = values[0];
        self.g = values[1];
        self.b = values[2];
        self.a = values[3];
        assert(self.channels() =~= values@);
    }

    fn as_bytes(&self) -> (r: Vec<u8>)
        ensures
            r@.len() == 4 * T::byte_size(),
            self.r.is_native_repr(r@.subrange(0, T::byte_size() as int)),
            self.g.is_native_repr(r@.subrange(T::byte_size() as int, 2 * T::byte_size() as int)),
            self.b.is_native_repr(r@.subrange(2 * T::byte_size() as int, 3 * T::byte_size() as int)),
            self.a.is_native_repr(r@.subrange(3 * T::byte_size() as int, 4 * T::byte_size() as int)),
    {
        let cs = self.iter();
        let r = components_to_bytes(cs.as_slice());
        let ghost size = T::byte_size() as int;
        assert(cs@[0].is_native_repr(r@.subrange(0 * size, (0 + 1) * size)));
        assert(cs@[1].is_native_repr(r@.subrange(1 * size, (1 + 1) * size)));
        assert(cs@[2].is_native_repr(r@.subrange(2 * size, (2 + 1) * size)));
        assert(cs@[3].is_native_repr(r@.subrange(3 * size, (3 + 1) * size)));
        r
    }
}

/// All components of `px`, pixel after pixel, each pixel in field order.
pub open spec fn rgba_flatten<T>(px: Seq<RGBA<T>>) -> Seq<T>
    decreases px.len(),
{
    if px.len() == 0 {
        Seq::empty()
    } else {
        rgba_flatten(px.drop_last()) + px.last().channels()
    }
}

impl<T: Component> ByteSlice for [RGBA<T>] {
    open spec fn is_byte_view(&self, bytes: Seq<u8>) -> bool {
        bytes_of(rgba_flatten(self@), bytes)
    }

    open spec fn bytes_fit(&self) -> bool {
        4 * self@.len() * T::byte_size() <= usize::MAX
    }

    fn as_bytes(&self) -> (r: Vec<u8>) {
        let mut all: Vec<T> = Vec::new();
        let mut i: usize = 0;
        while i < self.len()
            invariant
                i <= self@.len(),
                all@ == rgba_flatten(self@.subrange(0, i as int)),
                all@.len() == 4 * i,
            decreases self@.len() - i,
        {
            let p = self[i];
            all.push(p.r);
            all.push(p.g);
            all.push(p.b);
            all.push(p.a);
            assert(self@.subrange(0, i + 1).drop_last() =~= self@.subrange(0, i as int));
            assert(all@ =~= rgba_flatten(self@.subrange(0, i + 1)));
            i = i + 1;
        }
        assert(self@.subrange(0, self@.len() as int) =~= self@);
        components_to_bytes(all.as_slice())
    }
}

impl<T: Copy, U> ComponentMap<RGBA<U>, T, U> for RGBA<T> {
    open spec fn source_components(&self) -> Seq<T> {
        self.channels()
    }

    open spec fn dest_components(out: RGBA<U>) -> Seq<U> {
        out.channels()
    }

    fn map<F: Fn(T) -> U>(&self, f: F) -> (r: RGBA<U>)
        ensures
            self.is_mapped_by(f, r),
    {
        assert(<RGBA<T> as ComponentMap<RGBA<U>, T, U>>::source_components(self)[0] == self.r);
        assert(<RGBA<T> as ComponentMap<RGBA<U>, T, U>>::source_components(self)[1] == self.g);
        assert(<RGBA<T> as ComponentMap<RGBA<U>, T, U>>::source_components(self)[2] == self.b);
        assert(<RGBA<T> as ComponentMap<RGBA<U>, T, U>>::source_components(self)[3] == self.a);
        let r = RGBA { r: f(self.r), g: f(self.g), b: f(self.b), a: f(self.a) };
        assert(Self::dest_components(r)[0] == r.r);
        assert(Self::dest_components(r)[1] == r.g);
        assert(Self::dest_components(r)[2] == r.b);
        assert(Self::dest_components(r)[3] == r.a);
        r
    }
}

/// Collecting the components of `x` back into a pixel gives `x`.
pub proof fn rgba_round_trip<T>(x: RGBA<T>)
    ensures
        RGBA::from_channels(x.channels()) == x,
{
}

/// Mapping with a function that returns its argument gives the pixel back.
pub proof fn rgba_map_identity<T, F: Fn(T) -> T>(x: RGBA<T>, f: F, out: RGBA<T>)
    requires
        forall|v: T, w: T| call_ensures(f, (v,), w) ==> w == v,
        x.is_mapped_by(f, out),
    ensures
        out == x,
{
}

/// Mapping with `f` and then with `g` gives what mapping once with `g ∘ f` gives.
pub proof fn rgba_map_composition<T, U, V, F: Fn(T) -> U, G: Fn(U) -> V, H: Fn(T) -> V>(
    x: RGBA<T>,
    f: F,
    g: G,
    h: H,
    f_spec: spec_fn(T) -> U,
    g_spec: spec_fn(U) -> V,
    y: RGBA<U>,
    z: RGBA<V>,
    w: RGBA<V>,
)
    requires
        forall|v: T, u: U| call_ensures(f, (v,), u) ==> u == f_spec(v),
        forall|u: U, v: V| call_ensures(g, (u,), v) ==> v == g_spec(u),
        forall|t: T, v: V| call_ensures(h, (t,), v) ==> v == g_spec(f_spec(t)),
        x.is_mapped_by(f, y),
        y.is_mapped_by(g, z),
        x.is_mapped_by(h, w),
    ensures
        z == w,
        z == x.map_spec(f_spec).map_spec(g_spec),
        w == x.map_spec(|t: T| g_spec(f_spec(t))),
{
}

} // verus!
