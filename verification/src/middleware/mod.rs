//! Middleware: transformations of endpoints.

pub mod add_data;

pub use add_data::{AddData, AddDataEndpoint};

use vstd::prelude::*;

use crate::endpoint::endpoint::Endpoint;

verus! {

/// Transforms an endpoint into another endpoint.
pub trait Middleware<E: Endpoint<S>, S = ()> {
    /// The new endpoint type.
    type Output: Endpoint<S>;

    /// `out` is an endpoint that `transform` may make of `ep`; by default, any
    /// endpoint.
    open spec fn transforms(&self, ep: E, out: Self::Output) -> bool {
        true
    }

    /// Transforms the input endpoint.
    fn transform(&self, ep: E) -> (out: Self::Output)
        ensures
            self.transforms(ep, out),
    ;
}

/// Two middlewares applied in order: the first to the endpoint, the second to
/// what the first made.
impl<E, S, T1, T2> Middleware<E, S> for (T1, T2) where
    E: Endpoint<S>,
    S: Send + Sync,
    T1: Middleware<E, S>,
    T2: Middleware<T1::Output, S>,
 {
    type Output = T2::Output;

    open spec fn transforms(&self, ep: E, out: T2::Output) -> bool {
        exists|mid: T1::Output| #[trigger] self.0.transforms(ep, mid) && self.1.transforms(mid, out)
    }

    fn transform(&self, ep: E) -> (out: T2::Output) {
        let ghost ep0 = ep;
        let mid = self.0.transform(ep);
        let ghost mid0 = mid;
        let out = self.1.transform(mid);
        assert(self.0.transforms(ep0, mid0) && self.1.transforms(mid0, out));
        out
    }
}

/// Three middlewares applied in order: the first to the endpoint, the
/// others, in order, to what the first made.
impl<E, S, T1, T2, T3> Middleware<E, S> for (T1, T2, T3) where
    E: Endpoint<S>,
    S: Send + Sync,
    T1: Middleware<E, S>,
    T2: Middleware<T1::Output, S>,
    T3: Middleware<T2::Output, S>,
 {
    type Output = T3::Output;

    open spec fn transforms(&self, ep: E, out: T3::Output) -> bool {
        exists|mid: T1::Output| #[trigger] self.0.transforms(ep, mid)
            && (self.1, self.2).transforms(mid, out)
    }

    fn transform(&self, ep: E) -> (out: T3::Output) {
        let ghost g0 = ep;
        let m1 = self.0.transform(ep);
        let ghost g1 = m1;
        let m2 = self.1.transform(m1);
        let ghost g2 = m2;
        let out = self.2.transform(m2);
        proof {
            assert((self.1, self.2).0.transforms(g1, g2));
            assert((self.1, self.2).transforms(g1, out));
        }
        out
    }
}

/// Four middlewares applied in order: the first to the endpoint, the
/// others, in order, to what the first made.
impl<E, S, T1, T2, T3, T4> Middleware<E, S> for (T1, T2, T3, T4) where
    E: Endpoint<S>,
    S: Send + Sync,
    T1: Middleware<E, S>,
    T2: Middleware<T1::Output, S>,
    T3: Middleware<T2::Output, S>,
    T4: Middleware<T3::Output, S>,
 {
    type Output = T4::Output;

    open spec fn transforms(&self, ep: E, out: T4::Output) -> bool {
        exists|mid: T1::Output| #[trigger] self.0.transforms(ep, mid)
            && (self.1, self.2, self.3).transforms(mid, out)
    }

    fn transform(&self, ep: E) -> (out: T4::Output) {
        let ghost g0 = ep;
        let m1 = self.0.transform(ep);
        let ghost g1 = m1;
        let m2 = self.1.transform(m1);
        let ghost g2 = m2;
        let m3 = self.2.transform(m2);
        let ghost g3 = m3;
        let out = self.3.transform(m3);
        proof {
            assert((self.2, self.3).0.transforms(g2, g3));
            assert((self.2, self.3).transforms(g2, out));
            assert((self.1, self.2, self.3).0.transforms(g1, g2));
            assert((self.1, self.2, self.3).transforms(g1, out));
        }
        out
    }
}

/// Five middlewares applied in order: the first to the endpoint, the
/// others, in order, to what the first made.
impl<E, S, T1, T2, T3, T4, T5> Middleware<E, S> for (T1, T2, T3, T4, T5) where
    E: Endpoint<S>,
    S: Send + Sync,
    T1: Middleware<E, S>,
    T2: Middleware<T1::Output, S>,
    T3: Middleware<T2::Output, S>,
    T4: Middleware<T3::Output, S>,
    T5: Middleware<T4::Output, S>,
 {
    type Output = T5::Output;

    open spec fn transforms(&self, ep: E, out: T5::Output) -> bool {
        exists|mid: T1::Output| #[trigger] self.0.transforms(ep, mid)
            && (self.1, self.2, self.3, self.4).transforms(mid, out)
    }

    fn transform(&self, ep: E) -> (out: T5::Output) {
        let ghost g0 = ep;
        let m1 = self.0.transform(ep);
        let ghost g1 = m1;
        let m2 = self.1.transform(m1);
        let ghost g2 = m2;
        let m3 = self.2.transform(m2);
        let ghost g3 = m3;
        let m4 = self.3.transform(m3);
        let ghost g4 = m4;
        let out = self.4.transform(m4);
        proof {
            assert((self.3, self.4).0.transforms(g3, g4));
            assert((self.3, self.4).transforms(g3, out));
            assert((self.2, self.3, self.4).0.transforms(g2, g3));
            assert((self.2, self.3, self.4).transforms(g2, out));
            assert((self.1, self.2, self.3, self.4).0.transforms(g1, g2));
            assert((self.1, self.2, self.3, self.4).transforms(g1, out));
        }
        out
    }
}

/// Six middlewares applied in order: the first to the endpoint, the
/// others, in order, to what the first made.
impl<E, S, T1, T2, T3, T4, T5, T6> Middleware<E, S> for (T1, T2, T3, T4, T5, T6) where
    E: Endpoint<S>,
    S: Send + Sync,
    T1: Middleware<E, S>,
    T2: Middleware<T1::Output, S>,
    T3: Middleware<T2::Output, S>,
    T4: Middleware<T3::Output, S>,
    T5: Middleware<T4::Output, S>,
    T6: Middleware<T5::Output, S>,
 {
    type Output = T6::Output;

    open spec fn transforms(&self, ep: E, out: T6::Output) -> bool {
        exists|mid: T1::Output| #[trigger] self.0.transforms(ep, mid)
            && (self.1, self.2, self.3, self.4, self.5).transforms(mid, out)
    }

    fn transform(&self, ep: E) -> (out: T6::Output) {
        let ghost g0 = ep;
        let m1 = self.0.transform(ep);
        let ghost g1 = m1;
        let m2 = self.1.transform(m1);
        let ghost g2 = m2;
        let m3 = self.2.transform(m2);
        let ghost g3 = m3;
        let m4 = self.3.transform(m3);
        let ghost g4 = m4;
        let m5 = self.4.transform(m4);
        let ghost g5 = m5;
        let out = self.5.transform(m5);
        proof {
            assert((self.4, self.5).0.transforms(g4, g5));
            assert((self.4, self.5).transforms(g4, out));
            assert((self.3, self.4, self.5).0.transforms(g3, g4));
            assert((self.3, self.4, self.5).transforms(g3, out));
            assert((self.2, self.3, self.4, self.5).0.transforms(g2, g3));
            assert((self.2, self.3, self.4, self.5).transforms(g2, out));
            assert((self.1, self.2, self.3, self.4, self.5).0.transforms(g1, g2));
            assert((self.1, self.2, self.3, self.4, self.5).transforms(g1, out));
        }
        out
    }
}

/// Seven middlewares applied in order: the first to the endpoint, the
/// others, in order, to what the first made.
impl<E, S, T1, T2, T3, T4, T5, T6, T7> Middleware<E, S> for (T1, T2, T3, T4, T5, T6, T7) where
    E: Endpoint<S>,
    S: Send + Sync,
    T1: Middleware<E, S>,
    T2: Middleware<T1::Output, S>,
    T3: Middleware<T2::Output, S>,
    T4: Middleware<T3::Output, S>,
    T5: Middleware<T4::Output, S>,
    T6: Middleware<T5::Output, S>,
    T7: Middleware<T6::Output, S>,
 {
    type Output = T7::Output;

    open spec fn transforms(&self, ep: E, out: T7::Output) -> bool {
        exists|mid: T1::Output| #[trigger] self.0.transforms(ep, mid)
            && (self.1, self.2, self.3, self.4, self.5, self.6).transforms(mid, out)
    }

    fn transform(&self, ep: E) -> (out: T7::Output) {
        let ghost g0 = ep;
        let m1 = self.0.transform(ep);
        let ghost g1 = m1;
        let m2 = self.1.transform(m1);
        let ghost g2 = m2;
        let m3 = self.2.transform(m2);
        let ghost g3 = m3;
        let m4 = self.3.transform(m3);
        let ghost g4 = m4;
        let m5 = self.4.transform(m4);
        let ghost g5 = m5;
        let m6 = self.5.transform(m5);
        let ghost g6 = m6;
        let out = self.6.transform(m6);
        proof {
            assert((self.5, self.6).0.transforms(g5, g6));
            assert((self.5, self.6).transforms(g5, out));
            assert((self.4, self.5, self.6).0.transforms(g4, g5));
            assert((self.4, self.5, self.6).transforms(g4, out));
            assert((self.3, self.4, self.5, self.6).0.transforms(g3, g4));
            assert((self.3, self.4, self.5, self.6).transforms(g3, out));
            assert((self.2, self.3, self.4, self.5, self.6).0.transforms(g2, g3));
            assert((self.2, self.3, self.4, self.5, self.6).transforms(g2, out));
            assert((self.1, self.2, self.3, self.4, self.5, self.6).0.transforms(g1, g2));
            assert((self.1, self.2, self.3, self.4, self.5, self.6).transforms(g1, out));
        }
        out
    }
}

/// Eight middlewares applied in order: the first to the endpoint, the
/// others, in order, to what the first made.
impl<E, S, T1, T2, T3, T4, T5, T6, T7, T8> Middleware<E, S> for (T1, T2, T3, T4, T5, T6, T7, T8) where
    E: Endpoint<S>,
    S: Send + Sync,
    T1: Middleware<E, S>,
    T2: Middleware<T1::Output, S>,
    T3: Middleware<T2::Output, S>,
    T4: Middleware<T3::Output, S>,
    T5: Middleware<T4::Output, S>,
    T6: Middleware<T5::Output, S>,
    T7: Middleware<T6::Output, S>,
    T8: Middleware<T7::Output, S>,
 {
    type Output = T8::Output;

    open spec fn transforms(&self, ep: E, out: T8::Output) -> bool {
        exists|mid: T1::Output| #[trigger] self.0.transforms(ep, mid)
            && (self.1, self.2, self.3, self.4, self.5, self.6, self.7).transforms(mid, out)
    }

    fn transform(&self, ep: E) -> (out: T8::Output) {
        let ghost g0 = ep;
        let m1 = self.0.transform(ep);
        let ghost g1 = m1;
        let m2 = self.1.transform(m1);
        let ghost g2 = m2;
        let m3 = self.2.transform(m2);
        let ghost g3 = m3;
        let m4 = self.3.transform(m3);
        let ghost g4 = m4;
        let m5 = self.4.transform(m4);
        let ghost g5 = m5;
        let m6 = self.5.transform(m5);
        let ghost g6 = m6;
        let m7 = self.6.transform(m6);
        let ghost g7 = m7;
        let out = self.7.transform(m7);
        proof {
            assert((self.6, self.7).0.transforms(g6, g7));
            assert((self.6, self.7).transforms(g6, out));
            assert((self.5, self.6, self.7).0.transforms(g5, g6));
            assert((self.5, self.6, self.7).transforms(g5, out));
            assert((self.4, self.5, self.6, self.7).0.transforms(g4, g5));
            assert((self.4, self.5, self.6, self.7).transforms(g4, out));
            assert((self.3, self.4, self.5, self.6, self.7).0.transforms(g3, g4));
            assert((self.3, self.4, self.5, self.6, self.7).transforms(g3, out));
            assert((self.2, self.3, self.4, self.5, self.6, self.7).0.transforms(g2, g3));
            assert((self.2, self.3, self.4, self.5, self.6, self.7).transforms(g2, out));
            assert((self.1, self.2, self.3, self.4, self.5, self.6, self.7).0.transforms(g1, g2));
            assert((self.1, self.2, self.3, self.4, self.5, self.6, self.7).transforms(g1, out));
        }
        out
    }
}

/// Nine middlewares applied in order: the first to the endpoint, the
/// others, in order, to what the first made.
impl<E, S, T1, T2, T3, T4, T5, T6, T7, T8, T9> Middleware<E, S> for (T1, T2, T3, T4, T5, T6, T7, T8, T9) where
    E: Endpoint<S>,
    S: Send + Sync,
    T1: Middleware<E, S>,
    T2: Middleware<T1::Output, S>,
    T3: Middleware<T2::Output, S>,
    T4: Middleware<T3::Output, S>,
    T5: Middleware<T4::Output, S>,
    T6: Middleware<T5::Output, S>,
    T7: Middleware<T6::Output, S>,
    T8: Middleware<T7::Output, S>,
    T9: Middleware<T8::Output, S>,
 {
    type Output = T9::Output;

    open spec fn transforms(&self, ep: E, out: T9::Output) -> bool {
        exists|mid: T1::Output| #[trigger] self.0.transforms(ep, mid)
            && (self.1, self.2, self.3, self.4, self.5, self.6, self.7, self.8).transforms(mid, out)
    }

    fn transform(&self, ep: E) -> (out: T9::Output) {
        let ghost g0 = ep;
        let m1 = self.0.transform(ep);
        let ghost g1 = m1;
        let m2 = self.1.transform(m1);
        let ghost g2 = m2;
        let m3 = self.2.transform(m2);
        let ghost g3 = m3;
        let m4 = self.3.transform(m3);
        let ghost g4 = m4;
        let m5 = self.4.transform(m4);
        let ghost g5 = m5;
        let m6 = self.5.transform(m5);
        let ghost g6 = m6;
        let m7 = self.6.transform(m6);
        let ghost g7 = m7;
        let m8 = self.7.transform(m7);
        let ghost g8 = m8;
        let out = self.8.transform(m8);
        proof {
            assert((self.7, self.8).0.transforms(g7, g8));
            assert((self.7, self.8).transforms(g7, out));
            assert((self.6, self.7, self.8).0.transforms(g6, g7));
            assert((self.6, self.7, self.8).transforms(g6, out));
            assert((self.5, self.6, self.7, self.8).0.transforms(g5, g6));
            assert((self.5, self.6, self.7, self.8).transforms(g5, out));
            assert((self.4, self.5, self.6, self.7, self.8).0.transforms(g4, g5));
            assert((self.4, self.5, self.6, self.7, self.8).transforms(g4, out));
            assert((self.3, self.4, self.5, self.6, self.7, self.8).0.transforms(g3, g4));
            assert((self.3, self.4, self.5, self.6, self.7, self.8).transforms(g3, out));
            assert((self.2, self.3, self.4, self.5, self.6, self.7, self.8).0.transforms(g2, g3));
            assert((self.2, self.3, self.4, self.5, self.6, self.7, self.8).transforms(g2, out));
            assert((self.1, self.2, self.3, self.4, self.5, self.6, self.7, self.8).0.transforms(g1, g2));
            assert((self.1, self.2, self.3, self.4, self.5, self.6, self.7, self.8).transforms(g1, out));
        }
        out
    }
}

/// Ten middlewares applied in order: the first to the endpoint, the
/// others, in order, to what the first made.
impl<E, S, T1, T2, T3, T4, T5, T6, T7, T8, T9, T10> Middleware<E, S> for (T1, T2, T3, T4, T5, T6, T7, T8, T9, T10) where
    E: Endpoint<S>,
    S: Send + Sync,
    T1: Middleware<E, S>,
    T2: Middleware<T1::Output, S>,
    T3: Middleware<T2::Output, S>,
    T4: Middleware<T3::Output, S>,
    T5: Middleware<T4::Output, S>,
    T6: Middleware<T5::Output, S>,
    T7: Middleware<T6::Output, S>,
    T8: Middleware<T7::Output, S>,
    T9: Middleware<T8::Output, S>,
    T10: Middleware<T9::Output, S>,
 {
    type Output = T10::Output;

    open spec fn transforms(&self, ep: E, out: T10::Output) -> bool {
        exists|mid: T1::Output| #[trigger] self.0.transforms(ep, mid)
            && (self.1, self.2, self.3, self.4, self.5, self.6, self.7, self.8, self.9).transforms(mid, out)
    }

    fn transform(&self, ep: E) -> (out: T10::Output) {
        let ghost g0 = ep;
        let m1 = self.0.transform(ep);
        let ghost g1 = m1;
        let m2 = self.1.transform(m1);
        let ghost g2 = m2;
        let m3 = self.2.transform(m2);
        let ghost g3 = m3;
        let m4 = self.3.transform(m3);
        let ghost g4 = m4;
        let m5 = self.4.transform(m4);
        let ghost g5 = m5;
        let m6 = self.5.transform(m5);
        let ghost g6 = m6;
        let m7 = self.6.transform(m6);
        let ghost g7 = m7;
        let m8 = self.7.transform(m7);
        let ghost g8 = m8;
        let m9 = self.8.transform(m8);
        let ghost g9 = m9;
        let out = self.9.transform(m9);
        proof {
            assert((self.8, self.9).0.transforms(g8, g9));
            assert((self.8, self.9).transforms(g8, out));
            assert((self.7, self.8, self.9).0.transforms(g7, g8));
            assert((self.7, self.8, self.9).transforms(g7, out));
            assert((self.6, self.7, self.8, self.9).0.transforms(g6, g7));
            assert((self.6, self.7, self.8, self.9).transforms(g6, out));
            assert((self.5, self.6, self.7, self.8, self.9).0.transforms(g5, g6));
            assert((self.5, self.6, self.7, self.8, self.9).transforms(g5, out));
            assert((self.4, self.5, self.6, self.7, self.8, self.9).0.transforms(g4, g5));
            assert((self.4, self.5, self.6, self.7, self.8, self.9).transforms(g4, out));
            assert((self.3, self.4, self.5, self.6, self.7, self.8, self.9).0.transforms(g3, g4));
            assert((self.3, self.4, self.5, self.6, self.7, self.8, self.9).transforms(g3, out));
            assert((self.2, self.3, self.4, self.5, self.6, self.7, self.8, self.9).0.transforms(g2, g3));
            assert((self.2, self.3, self.4, self.5, self.6, self.7, self.8, self.9).transforms(g2, out));
            assert((self.1, self.2, self.3, self.4, self.5, self.6, self.7, self.8, self.9).0.transforms(g1, g2));
            assert((self.1, self.2, self.3, self.4, self.5, self.6, self.7, self.8, self.9).transforms(g1, out));
        }
        out
    }
}

/// Eleven middlewares applied in order: the first to the endpoint, the
/// others, in order, to what the first made.
impl<E, S, T1, T2, T3, T4, T5, T6, T7, T8, T9, T10, T11> Middleware<E, S> for (T1, T2, T3, T4, T5, T6, T7, T8, T9, T10, T11) where
    E: Endpoint<S>,
    S: Send + Sync,
    T1: Middleware<E, S>,
    T2: Middleware<T1::Output, S>,
    T3: Middleware<T2::Output, S>,
    T4: Middleware<T3::Output, S>,
    T5: Middleware<T4::Output, S>,
    T6: Middleware<T5::Output, S>,
    T7: Middleware<T6::Output, S>,
    T8: Middleware<T7::Output, S>,
    T9: Middleware<T8::Output, S>,
    T10: Middleware<T9::Output, S>,
    T11: Middleware<T10::Output, S>,
 {
    type Output = T11::Output;

    open spec fn transforms(&self, ep: E, out: T11::Output) -> bool {
        exists|mid: T1::Output| #[trigger] self.0.transforms(ep, mid)
            && (self.1, self.2, self.3, self.4, self.5, self.6, self.7, self.8, self.9, self.10).transforms(mid, out)
    }

    fn transform(&self, ep: E) -> (out: T11::Output) {
        let ghost g0 = ep;
        let m1 = self.0.transform(ep);
        let ghost g1 = m1;
        let m2 = self.1.transform(m1);
        let ghost g2 = m2;
        let m3 = self.2.transform(m2);
        let ghost g3 = m3;
        let m4 = self.3.transform(m3);
        let ghost g4 = m4;
        let m5 = self.4.transform(m4);
        let ghost g5 = m5;
        let m6 = self.5.transform(m5);
        let ghost g6 = m6;
        let m7 = self.6.transform(m6);
        let ghost g7 = m7;
        let m8 = self.7.transform(m7);
        let ghost g8 = m8;
        let m9 = self.8.transform(m8);
        let ghost g9 = m9;
        let m10 = self.9.transform(m9);
        let ghost g10 = m10;
        let out = self.10.transform(m10);
        proof {
            assert((self.9, self.10).0.transforms(g9, g10));
            assert((self.9, self.10).transforms(g9, out));
            assert((self.8, self.9, self.10).0.transforms(g8, g9));
            assert((self.8, self.9, self.10).transforms(g8, out));
            assert((self.7, self.8, self.9, self.10).0.transforms(g7, g8));
            assert((self.7, self.8, self.9, self.10).transforms(g7, out));
            assert((self.6, self.7, self.8, self.9, self.10).0.transforms(g6, g7));
            assert((self.6, self.7, self.8, self.9, self.10).transforms(g6, out));
            assert((self.5, self.6, self.7, self.8, self.9, self.10).0.transforms(g5, g6));
            assert((self.5, self.6, self.7, self.8, self.9, self.10).transforms(g5, out));
            assert((self.4, self.5, self.6, self.7, self.8, self.9, self.10).0.transforms(g4, g5));
            assert((self.4, self.5, self.6, self.7, self.8, self.9, self.10).transforms(g4, out));
            assert((self.3, self.4, self.5, self.6, self.7, self.8, self.9, self.10).0.transforms(g3, g4));
            assert((self.3, self.4, self.5, self.6, self.7, self.8, self.9, self.10).transforms(g3, out));
            assert((self.2, self.3, self.4, self.5, self.6, self.7, self.8, self.9, self.10).0.transforms(g2, g3));
            assert((self.2, self.3, self.4, self.5, self.6, self.7, self.8, self.9, self.10).transforms(g2, out));
            assert((self.1, self.2, self.3, self.4, self.5, self.6, self.7, self.8, self.9, self.10).0.transforms(g1, g2));
            assert((self.1, self.2, self.3, self.4, self.5, self.6, self.7, self.8, self.9, self.10).transforms(g1, out));
        }
        out
    }
}

/// Twelve middlewares applied in order: the first to the endpoint, the
/// others, in order, to what the first made.
impl<E, S, T1, T2, T3, T4, T5, T6, T7, T8, T9, T10, T11, T12> Middleware<E, S> for (T1, T2, T3, T4, T5, T6, T7, T8, T9, T10, T11, T12) where
    E: Endpoint<S>,
    S: Send + Sync,
    T1: Middleware<E, S>,
    T2: Middleware<T1::Output, S>,
    T3: Middleware<T2::Output, S>,
    T4: Middleware<T3::Output, S>,
    T5: Middleware<T4::Output, S>,
    T6: Middleware<T5::Output, S>,
    T7: Middleware<T6::Output, S>,
    T8: Middleware<T7::Output, S>,
    T9: Middleware<T8::Output, S>,
    T10: Middleware<T9::Output, S>,
    T11: Middleware<T10::Output, S>,
    T12: Middleware<T11::Output, S>,
 {
    type Output = T12::Output;

    open spec fn transforms(&self, ep: E, out: T12::Output) -> bool {
        exists|mid: T1::Output| #[trigger] self.0.transforms(ep, mid)
            && (self.1, self.2, self.3, self.4, self.5, self.6, self.7, self.8, self.9, self.10, self.11).transforms(mid, out)
    }

    fn transform(&self, ep: E) -> (out: T12::Output) {
        let ghost g0 = ep;
        let m1 = self.0.transform(ep);
        let ghost g1 = m1;
        let m2 = self.1.transform(m1);
        let ghost g2 = m2;
        let m3 = self.2.transform(m2);
        let ghost g3 = m3;
        let m4 = self.3.transform(m3);
        let ghost g4 = m4;
        let m5 = self.4.transform(m4);
        let ghost g5 = m5;
        let m6 = self.5.transform(m5);
        let ghost g6 = m6;
        let m7 = self.6.transform(m6);
        let ghost g7 = m7;
        let m8 = self.7.transform(m7);
        let ghost g8 = m8;
        let m9 = self.8.transform(m8);
        let ghost g9 = m9;
        let m10 = self.9.transform(m9);
        let ghost g10 = m10;
        let m11 = self.10.transform(m10);
        let ghost g11 = m11;
        let out = self.11.transform(m11);
        proof {
            assert((self.10, self.11).0.transforms(g10, g11));
            assert((self.10, self.11).transforms(g10, out));
            assert((self.9, self.10, self.11).0.transforms(g9, g10));
            assert((self.9, self.10, self.11).transforms(g9, out));
            assert((self.8, self.9, self.10, self.11).0.transforms(g8, g9));
            assert((self.8, self.9, self.10, self.11).transforms(g8, out));
            assert((self.7, self.8, self.9, self.10, self.11).0.transforms(g7, g8));
            assert((self.7, self.8, self.9, self.10, self.11).transforms(g7, out));
            assert((self.6, self.7, self.8, self.9, self.10, self.11).0.transforms(g6, g7));
            assert((self.6, self.7, self.8, self.9, self.10, self.11).transforms(g6, out));
            assert((self.5, self.6, self.7, self.8, self.9, self.10, self.11).0.transforms(g5, g6));
            assert((self.5, self.6, self.7, self.8, self.9, self.10, self.11).transforms(g5, out));
            assert((self.4, self.5, self.6, self.7, self.8, self.9, self.10, self.11).0.transforms(g4, g5));
            assert((self.4, self.5, self.6, self.7, self.8, self.9, self.10, self.11).transforms(g4, out));
            assert((self.3, self.4, self.5, self.6, self.7, self.8, self.9, self.10, self.11).0.transforms(g3, g4));
            assert((self.3, self.4, self.5, self.6, self.7, self.8, self.9, self.10, self.11).transforms(g3, out));
            assert((self.2, self.3, self.4, self.5, self.6, self.7, self.8, self.9, self.10, self.11).0.transforms(g2, g3));
            assert((self.2, self.3, self.4, self.5, self.6, self.7, self.8, self.9, self.10, self.11).transforms(g2, out));
            assert((self.1, self.2, self.3, self.4, self.5, self.6, self.7, self.8, self.9, self.10, self.11).0.transforms(g1, g2));
            assert((self.1, self.2, self.3, self.4, self.5, self.6, self.7, self.8, self.9, self.10, self.11).transforms(g1, out));
        }
        out
    }
}

/// Thirteen middlewares applied in order: the first to the endpoint, the
/// others, in order, to what the first made.
impl<E, S, T1, T2, T3, T4, T5, T6, T7, T8, T9, T10, T11, T12, T13> Middleware<E, S> for (T1, T2, T3, T4, T5, T6, T7, T8, T9, T10, T11, T12, T13) where
    E: Endpoint<S>,
    S: Send + Sync,
    T1: Middleware<E, S>,
    T2: Middleware<T1::Output, S>,
    T3: Middleware<T2::Output, S>,
    T4: Middleware<T3::Output, S>,
    T5: Middleware<T4::Output, S>,
    T6: Middleware<T5::Output, S>,
    T7: Middleware<T6::Output, S>,
    T8: Middleware<T7::Output, S>,
    T9: Middleware<T8::Output, S>,
    T10: Middleware<T9::Output, S>,
    T11: Middleware<T10::Output, S>,
    T12: Middleware<T11::Output, S>,
    T13: Middleware<T12::Output, S>,
 {
    type Output = T13::Output;

    open spec fn transforms(&self, ep: E, out: T13::Output) -> bool {
        exists|mid: T1::Output| #[trigger] self.0.transforms(ep, mid)
            && (self.1, self.2, self.3, self.4, self.5, self.6, self.7, self.8, self.9, self.10, self.11, self.12).transforms(mid, out)
    }

    fn transform(&self, ep: E) -> (out: T13::Output) {
        let ghost g0 = ep;
        let m1 = self.0.transform(ep);
        let ghost g1 = m1;
        let m2 = self.1.transform(m1);
        let ghost g2 = m2;
        let m3 = self.2.transform(m2);
        let ghost g3 = m3;
        let m4 = self.3.transform(m3);
        let ghost g4 = m4;
        let m5 = self.4.transform(m4);
        let ghost g5 = m5;
        let m6 = self.5.transform(m5);
        let ghost g6 = m6;
        let m7 = self.6.transform(m6);
        let ghost g7 = m7;
        let m8 = self.7.transform(m7);
        let ghost g8 = m8;
        let m9 = self.8.transform(m8);
        let ghost g9 = m9;
        let m10 = self.9.transform(m9);
        let ghost g10 = m10;
        let m11 = self.10.transform(m10);
        let ghost g11 = m11;
        let m12 = self.11.transform(m11);
        let ghost g12 = m12;
        let out = self.12.transform(m12);
        proof {
            assert((self.11, self.12).0.transforms(g11, g12));
            assert((self.11, self.12).transforms(g11, out));
            assert((self.10, self.11, self.12).0.transforms(g10, g11));
            assert((self.10, self.11, self.12).transforms(g10, out));
            assert((self.9, self.10, self.11, self.12).0.transforms(g9, g10));
            assert((self.9, self.10, self.11, self.12).transforms(g9, out));
            assert((self.8, self.9, self.10, self.11, self.12).0.transforms(g8, g9));
            assert((self.8, self.9, self.10, self.11, self.12).transforms(g8, out));
            assert((self.7, self.8, self.9, self.10, self.11, self.12).0.transforms(g7, g8));
            assert((self.7, self.8, self.9, self.10, self.11, self.12).transforms(g7, out));
            assert((self.6, self.7, self.8, self.9, self.10, self.11, self.12).0.transforms(g6, g7));
            assert((self.6, self.7, self.8, self.9, self.10, self.11, self.12).transforms(g6, out));
            assert((self.5, self.6, self.7, self.8, self.9, self.10, self.11, self.12).0.transforms(g5, g6));
            assert((self.5, self.6, self.7, self.8, self.9, self.10, self.11, self.12).transforms(g5, out));
            assert((self.4, self.5, self.6, self.7, self.8, self.9, self.10, self.11, self.12).0.transforms(g4, g5));
            assert((self.4, self.5, self.6, self.7, self.8, self.9, self.10, self.11, self.12).transforms(g4, out));
            assert((self.3, self.4, self.5, self.6, self.7, self.8, self.9, self.10, self.11, self.12).0.transforms(g3, g4));
            assert((self.3, self.4, self.5, self.6, self.7, self.8, self.9, self.10, self.11, self.12).transforms(g3, out));
            assert((self.2, self.3, self.4, self.5, self.6, self.7, self.8, self.9, self.10, self.11, self.12).0.transforms(g2, g3));
            assert((self.2, self.3, self.4, self.5, self.6, self.7, self.8, self.9, self.10, self.11, self.12).transforms(g2, out));
            assert((self.1, self.2, self.3, self.4, self.5, self.6, self.7, self.8, self.9, self.10, self.11, self.12).0.transforms(g1, g2));
            assert((self.1, self.2, self.3, self.4, self.5, self.6, self.7, self.8, self.9, self.10, self.11, self.12).transforms(g1, out));
        }
        out
    }
}

/// Fourteen middlewares applied in order: the first to the endpoint, the
/// others, in order, to what the first made.
impl<E, S, T1, T2, T3, T4, T5, T6, T7, T8, T9, T10, T11, T12, T13, T14> Middleware<E, S> for (T1, T2, T3, T4, T5, T6, T7, T8, T9, T10, T11, T12, T13, T14) where
    E: Endpoint<S>,
    S: Send + Sync,
    T1: Middleware<E, S>,
    T2: Middleware<T1::Output, S>,
    T3: Middleware<T2::Output, S>,
    T4: Middleware<T3::Output, S>,
    T5: Middleware<T4::Output, S>,
    T6: Middleware<T5::Output, S>,
    T7: Middleware<T6::Output, S>,
    T8: Middleware<T7::Output, S>,
    T9: Middleware<T8::Output, S>,
    T10: Middleware<T9::Output, S>,
    T11: Middleware<T10::Output, S>,
    T12: Middleware<T11::Output, S>,
    T13: Middleware<T12::Output, S>,
    T14: Middleware<T13::Output, S>,
 {
    type Output = T14::Output;

    open spec fn transforms(&self, ep: E, out: T14::Output) -> bool {
        exists|mid: T1::Output| #[trigger] self.0.transforms(ep, mid)
            && (self.1, self.2, self.3, self.4, self.5, self.6, self.7, self.8, self.9, self.10, self.11, self.12, self.13).transforms(mid, out)
    }

    fn transform(&self, ep: E) -> (out: T14::Output) {
        let ghost g0 = ep;
        let m1 = self.0.transform(ep);
        let ghost g1 = m1;
        let m2 = self.1.transform(m1);
        let ghost g2 = m2;
        let m3 = self.2.transform(m2);
        let ghost g3 = m3;
        let m4 = self.3.transform(m3);
        let ghost g4 = m4;
        let m5 = self.4.transform(m4);
        let ghost g5 = m5;
        let m6 = self.5.transform(m5);
        let ghost g6 = m6;
        let m7 = self.6.transform(m6);
        let ghost g7 = m7;
        let m8 = self.7.transform(m7);
        let ghost g8 = m8;
        let m9 = self.8.transform(m8);
        let ghost g9 = m9;
        let m10 = self.9.transform(m9);
        let ghost g10 = m10;
        let m11 = self.10.transform(m10);
        let ghost g11 = m11;
        let m12 = self.11.transform(m11);
        let ghost g12 = m12;
        let m13 = self.12.transform(m12);
        let ghost g13 = m13;
        let out = self.13.transform(m13);
        proof {
            assert((self.12, self.13).0.transforms(g12, g13));
            assert((self.12, self.13).transforms(g12, out));
            assert((self.11, self.12, self.13).0.transforms(g11, g12));
            assert((self.11, self.12, self.13).transforms(g11, out));
            assert((self.10, self.11, self.12, self.13).0.transforms(g10, g11));
            assert((self.10, self.11, self.12, self.13).transforms(g10, out));
            assert((self.9, self.10, self.11, self.12, self.13).0.transforms(g9, g10));
            assert((self.9, self.10, self.11, self.12, self.13).transforms(g9, out));
            assert((self.8, self.9, self.10, self.11, self.12, self.13).0.transforms(g8, g9));
            assert((self.8, self.9, self.10, self.11, self.12, self.13).transforms(g8, out));
            assert((self.7, self.8, self.9, self.10, self.11, self.12, self.13).0.transforms(g7, g8));
            assert((self.7, self.8, self.9, self.10, self.11, self.12, self.13).transforms(g7, out));
            assert((self.6, self.7, self.8, self.9, self.10, self.11, self.12, self.13).0.transforms(g6, g7));
            assert((self.6, self.7, self.8, self.9, self.10, self.11, self.12, self.13).transforms(g6, out));
            assert((self.5, self.6, self.7, self.8, self.9, self.10, self.11, self.12, self.13).0.transforms(g5, g6));
            assert((self.5, self.6, self.7, self.8, self.9, self.10, self.11, self.12, self.13).transforms(g5, out));
            assert((self.4, self.5, self.6, self.7, self.8, self.9, self.10, self.11, self.12, self.13).0.transforms(g4, g5));
            assert((self.4, self.5, self.6, self.7, self.8, self.9, self.10, self.11, self.12, self.13).transforms(g4, out));
            assert((self.3, self.4, self.5, self.6, self.7, self.8, self.9, self.10, self.11, self.12, self.13).0.transforms(g3, g4));
            assert((self.3, self.4, self.5, self.6, self.7, self.8, self.9, self.10, self.11, self.12, self.13).transforms(g3, out));
            assert((self.2, self.3, self.4, self.5, self.6, self.7, self.8, self.9, self.10, self.11, self.12, self.13).0.transforms(g2, g3));
            assert((self.2, self.3, self.4, self.5, self.6, self.7, self.8, self.9, self.10, self.11, self.12, self.13).transforms(g2, out));
            assert((self.1, self.2, self.3, self.4, self.5, self.6, self.7, self.8, self.9, self.10, self.11, self.12, self.13).0.transforms(g1, g2));
            assert((self.1, self.2, self.3, self.4, self.5, self.6, self.7, self.8, self.9, self.10, self.11, self.12, self.13).transforms(g1, out));
        }
        out
    }
}

/// Fifteen middlewares applied in order: the first to the endpoint, the
/// others, in order, to what the first made.
impl<E, S, T1, T2, T3, T4, T5, T6, T7, T8, T9, T10, T11, T12, T13, T14, T15> Middleware<E, S> for (T1, T2, T3, T4, T5, T6, T7, T8, T9, T10, T11, T12, T13, T14, T15) where
    E: Endpoint<S>,
    S: Send + Sync,
    T1: Middleware<E, S>,
    T2: Middleware<T1::Output, S>,
    T3: Middleware<T2::Output, S>,
    T4: Middleware<T3::Output, S>,
    T5: Middleware<T4::Output, S>,
    T6: Middleware<T5::Output, S>,
    T7: Middleware<T6::Output, S>,
    T8: Middleware<T7::Output, S>,
    T9: Middleware<T8::Output, S>,
    T10: Middleware<T9::Output, S>,
    T11: Middleware<T10::Output, S>,
    T12: Middleware<T11::Output, S>,
    T13: Middleware<T12::Output, S>,
    T14: Middleware<T13::Output, S>,
    T15: Middleware<T14::Output, S>,
 {
    type Output = T15::Output;

    open spec fn transforms(&self, ep: E, out: T15::Output) -> bool {
        exists|mid: T1::Output| #[trigger] self.0.transforms(ep, mid)
            && (self.1, self.2, self.3, self.4, self.5, self.6, self.7, self.8, self.9, self.10, self.11, self.12, self.13, self.14).transforms(mid, out)
    }

    fn transform(&self, ep: E) -> (out: T15::Output) {
        let ghost g0 = ep;
        let m1 = self.0.transform(ep);
        let ghost g1 = m1;
        let m2 = self.1.transform(m1);
        let ghost g2 = m2;
        let m3 = self.2.transform(m2);
        let ghost g3 = m3;
        let m4 = self.3.transform(m3);
        let ghost g4 = m4;
        let m5 = self.4.transform(m4);
        let ghost g5 = m5;
        let m6 = self.5.transform(m5);
        let ghost g6 = m6;
        let m7 = self.6.transform(m6);
        let ghost g7 = m7;
        let m8 = self.7.transform(m7);
        let ghost g8 = m8;
        let m9 = self.8.transform(m8);
        let ghost g9 = m9;
        let m10 = self.9.transform(m9);
        let ghost g10 = m10;
        let m11 = self.10.transform(m10);
        let ghost g11 = m11;
        let m12 = self.11.transform(m11);
        let ghost g12 = m12;
        let m13 = self.12.transform(m12);
        let ghost g13 = m13;
        let m14 = self.13.transform(m13);
        let ghost g14 = m14;
        let out = self.14.transform(m14);
        proof {
            assert((self.13, self.14).0.transforms(g13, g14));
            assert((self.13, self.14).transforms(g13, out));
            assert((self.12, self.13, self.14).0.transforms(g12, g13));
            assert((self.12, self.13, self.14).transforms(g12, out));
            assert((self.11, self.12, self.13, self.14).0.transforms(g11, g12));
            assert((self.11, self.12, self.13, self.14).transforms(g11, out));
            assert((self.10, self.11, self.12, self.13, self.14).0.transforms(g10, g11));
            assert((self.10, self.11, self.12, self.13, self.14).transforms(g10, out));
            assert((self.9, self.10, self.11, self.12, self.13, self.14).0.transforms(g9, g10));
            assert((self.9, self.10, self.11, self.12, self.13, self.14).transforms(g9, out));
            assert((self.8, self.9, self.10, self.11, self.12, self.13, self.14).0.transforms(g8, g9));
            assert((self.8, self.9, self.10, self.11, self.12, self.13, self.14).transforms(g8, out));
            assert((self.7, self.8, self.9, self.10, self.11, self.12, self.13, self.14).0.transforms(g7, g8));
            assert((self.7, self.8, self.9, self.10, self.11, self.12, self.13, self.14).transforms(g7, out));
            assert((self.6, self.7, self.8, self.9, self.10, self.11, self.12, self.13, self.14).0.transforms(g6, g7));
            assert((self.6, self.7, self.8, self.9, self.10, self.11, self.12, self.13, self.14).transforms(g6, out));
            assert((self.5, self.6, self.7, self.8, self.9, self.10, self.11, self.12, self.13, self.14).0.transforms(g5, g6));
            assert((self.5, self.6, self.7, self.8, self.9, self.10, self.11, self.12, self.13, self.14).transforms(g5, out));
            assert((self.4, self.5, self.6, self.7, self.8, self.9, self.10, self.11, self.12, self.13, self.14).0.transforms(g4, g5));
            assert((self.4, self.5, self.6, self.7, self.8, self.9, self.10, self.11, self.12, self.13, self.14).transforms(g4, out));
            assert((self.3, self.4, self.5, self.6, self.7, self.8, self.9, self.10, self.11, self.12, self.13, self.14).0.transforms(g3, g4));
            assert((self.3, self.4, self.5, self.6, self.7, self.8, self.9, self.10, self.11, self.12, self.13, self.14).transforms(g3, out));
            assert((self.2, self.3, self.4, self.5, self.6, self.7, self.8, self.9, self.10, self.11, self.12, self.13, self.14).0.transforms(g2, g3));
            assert((self.2, self.3, self.4, self.5, self.6, self.7, self.8, self.9, self.10, self.11, self.12, self.13, self.14).transforms(g2, out));
            assert((self.1, self.2, self.3, self.4, self.5, self.6, self.7, self.8, self.9, self.10, self.11, self.12, self.13, self.14).0.transforms(g1, g2));
            assert((self.1, self.2, self.3, self.4, self.5, self.6, self.7, self.8, self.9, self.10, self.11, self.12, self.13, self.14).transforms(g1, out));
        }
        out
    }
}

/// Sixteen middlewares applied in order: the first to the endpoint, the
/// others, in order, to what the first made.
impl<E, S, T1, T2, T3, T4, T5, T6, T7, T8, T9, T10, T11, T12, T13, T14, T15, T16> Middleware<E, S> for (T1, T2, T3, T4, T5, T6, T7, T8, T9, T10, T11, T12, T13, T14, T15, T16) where
    E: Endpoint<S>,
    S: Send + Sync,
    T1: Middleware<E, S>,
    T2: Middleware<T1::Output, S>,
    T3: Middleware<T2::Output, S>,
    T4: Middleware<T3::Output, S>,
    T5: Middleware<T4::Output, S>,
    T6: Middleware<T5::Output, S>,
    T7: Middleware<T6::Output, S>,
    T8: Middleware<T7::Output, S>,
    T9: Middleware<T8::Output, S>,
    T10: Middleware<T9::Output, S>,
    T11: Middleware<T10::Output, S>,
    T12: Middleware<T11::Output, S>,
    T13: Middleware<T12::Output, S>,
    T14: Middleware<T13::Output, S>,
    T15: Middleware<T14::Output, S>,
    T16: Middleware<T15::Output, S>,
 {
    type Output = T16::Output;

    open spec fn transforms(&self, ep: E, out: T16::Output) -> bool {
        exists|mid: T1::Output| #[trigger] self.0.transforms(ep, mid)
            && (self.1, self.2, self.3, self.4, self.5, self.6, self.7, self.8, self.9, self.10, self.11, self.12, self.13, self.14, self.15).transforms(mid, out)
    }

    fn transform(&self, ep: E) -> (out: T16::Output) {
        let ghost g0 = ep;
        let m1 = self.0.transform(ep);
        let ghost g1 = m1;
        let m2 = self.1.transform(m1);
        let ghost g2 = m2;
        let m3 = self.2.transform(m2);
        let ghost g3 = m3;
        let m4 = self.3.transform(m3);
        let ghost g4 = m4;
        let m5 = self.4.transform(m4);
        let ghost g5 = m5;
        let m6 = self.5.transform(m5);
        let ghost g6 = m6;
        let m7 = self.6.transform(m6);
        let ghost g7 = m7;
        let m8 = self.7.transform(m7);
        let ghost g8 = m8;
        let m9 = self.8.transform(m8);
        let ghost g9 = m9;
        let m10 = self.9.transform(m9);
        let ghost g10 = m10;
        let m11 = self.10.transform(m10);
        let ghost g11 = m11;
        let m12 = self.11.transform(m11);
        let ghost g12 = m12;
        let m13 = self.12.transform(m12);
        let ghost g13 = m13;
        let m14 = self.13.transform(m13);
        let ghost g14 = m14;
        let m15 = self.14.transform(m14);
        let ghost g15 = m15;
        let out = self.15.transform(m15);
        proof {
            assert((self.14, self.15).0.transforms(g14, g15));
            assert((self.14, self.15).transforms(g14, out));
            assert((self.13, self.14, self.15).0.transforms(g13, g14));
            assert((self.13, self.14, self.15).transforms(g13, out));
            assert((self.12, self.13, self.14, self.15).0.transforms(g12, g13));
            assert((self.12, self.13, self.14, self.15).transforms(g12, out));
            assert((self.11, self.12, self.13, self.14, self.15).0.transforms(g11, g12));
            assert((self.11, self.12, self.13, self.14, self.15).transforms(g11, out));
            assert((self.10, self.11, self.12, self.13, self.14, self.15).0.transforms(g10, g11));
            assert((self.10, self.11, self.12, self.13, self.14, self.15).transforms(g10, out));
            assert((self.9, self.10, self.11, self.12, self.13, self.14, self.15).0.transforms(g9, g10));
            assert((self.9, self.10, self.11, self.12, self.13, self.14, self.15).transforms(g9, out));
            assert((self.8, self.9, self.10, self.11, self.12, self.13, self.14, self.15).0.transforms(g8, g9));
            assert((self.8, self.9, self.10, self.11, self.12, self.13, self.14, self.15).transforms(g8, out));
            assert((self.7, self.8, self.9, self.10, self.11, self.12, self.13, self.14, self.15).0.transforms(g7, g8));
            assert((self.7, self.8, self.9, self.10, self.11, self.12, self.13, self.14, self.15).transforms(g7, out));
            assert((self.6, self.7, self.8, self.9, self.10, self.11, self.12, self.13, self.14, self.15).0.transforms(g6, g7));
            assert((self.6, self.7, self.8, self.9, self.10, self.11, self.12, self.13, self.14, self.15).transforms(g6, out));
            assert((self.5, self.6, self.7, self.8, self.9, self.10, self.11, self.12, self.13, self.14, self.15).0.transforms(g5, g6));
            assert((self.5, self.6, self.7, self.8, self.9, self.10, self.11, self.12, self.13, self.14, self.15).transforms(g5, out));
            assert((self.4, self.5, self.6, self.7, self.8, self.9, self.10, self.11, self.12, self.13, self.14, self.15).0.transforms(g4, g5));
            assert((self.4, self.5, self.6, self.7, self.8, self.9, self.10, self.11, self.12, self.13, self.14, self.15).transforms(g4, out));
            assert((self.3, self.4, self.5, self.6, self.7, self.8, self.9, self.10, self.11, self.12, self.13, self.14, self.15).0.transforms(g3, g4));
            assert((self.3, self.4, self.5, self.6, self.7, self.8, self.9, self.10, self.11, self.12, self.13, self.14, self.15).transforms(g3, out));
            assert((self.2, self.3, self.4, self.5, self.6, self.7, self.8, self.9, self.10, self.11, self.12, self.13, self.14, self.15).0.transforms(g2, g3));
            assert((self.2, self.3, self.4, self.5, self.6, self.7, self.8, self.9, self.10, self.11, self.12, self.13, self.14, self.15).transforms(g2, out));
            assert((self.1, self.2, self.3, self.4, self.5, self.6, self.7, self.8, self.9, self.10, self.11, self.12, self.13, self.14, self.15).0.transforms(g1, g2));
            assert((self.1, self.2, self.3, self.4, self.5, self.6, self.7, self.8, self.9, self.10, self.11, self.12, self.13, self.14, self.15).transforms(g1, out));
        }
        out
    }
}
} // verus!
