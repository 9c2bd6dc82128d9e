//! A small value-wrapping utility that carries a computed result alongside an
//! optional, accumulating diagnostic trail.
//!
//! [`Erep`] holds a value plus an optional [`Ereport`]; a pipeline threads the
//! wrapper through a chain of mapping operations, each of which captures any
//! failure as diagnostic data rather than propagating it as control flow.

use vstd::prelude::*;

verus! {

/// A diagnostic trail: a free-text message plus an ordered sequence of child
/// trails, forming a tree of accumulated failure context.
#[derive(Debug)]
pub struct Ereport {
    pub msg: String,
    pub stack: Vec<Ereport>,
}

/// The children contributed by an optional trail: one element when the trail
/// is present, none when it is absent.
pub open spec fn rep_seq(rep: Option<Ereport>) -> Seq<Ereport> {
    match rep {
        Some(e) => seq![e],
        None => Seq::<Ereport>::empty(),
    }
}

/// How the trail returned by [`Ereport::push`] relates to its inputs: the
/// message is kept and the child lands at the end of the children sequence.
pub open spec fn push_post(pre: Ereport, child: Ereport, r: Ereport) -> bool {
    &&& r.msg == pre.msg
    &&& r.stack@ == pre.stack@.push(child)
}

impl Ereport {
    /// The canonical empty trail: empty message, no children.
    pub fn empty() -> (r: Self)
        ensures
            r.msg@ == Seq::<char>::empty(),
            r.stack@ == Seq::<Ereport>::empty(),
    {
        Ereport { msg: String::new(), stack: Vec::new() }
    }

    /// A single-message trail with no children.
    pub fn new(msg: String) -> (r: Self)
        ensures
            r.msg == msg,
            r.stack@ == Seq::<Ereport>::empty(),
    {
        Ereport { msg, stack: Vec::new() }
    }

    /// Appends `other` as the last child; ownership of the child transfers
    /// fully, and no existing child is touched or reordered.
    pub fn push(self, other: Ereport) -> (r: Self)
        ensures
            push_post(self, other, r),
    {
        let mut stack = self.stack;
        stack.push(other);
        Ereport { msg: self.msg, stack }
    }

    /// Appends the child if it is present; returns the trail unchanged if it
    /// is absent.
    pub fn push_opt(self, other: Option<Ereport>) -> (r: Self)
        ensures
            r.msg == self.msg,
            r.stack@ == self.stack@ + rep_seq(other),
    {
        match other {
            Some(e) => {
                let r = self.push(e);
                proof {
                    assert(r.stack@ =~= self.stack@ + rep_seq(Some(e)));
                }
                r
            },
            None => {
                proof {
                    assert(self.stack@ =~= self.stack@ + rep_seq(None::<Ereport>));
                }
                self
            },
        }
    }
}

/// A wrapped value: the payload of a computation step plus an optional
/// diagnostic trail. The trail is `None` as long as no diagnostic-producing
/// step has run.
#[derive(Debug)]
pub struct Erep<T> {
    pub val: T,
    pub rep: Option<Ereport>,
}

/// How the wrapper returned by [`Erep::map`] relates to the consumed wrapper
/// `pre` and the wrapper `mid` produced by the mapped function: the payload is
/// taken from `mid`, and the trail is always present — an empty-message node
/// whose children are the incoming trail followed by the new one, each
/// appearing exactly when it was present.
pub open spec fn map_post<T, U>(pre: Erep<T>, mid: Erep<U>, r: Erep<U>) -> bool {
    &&& r.val == mid.val
    &&& r.rep is Some
    &&& r.rep.unwrap().msg@ == Seq::<char>::empty()
    &&& r.rep.unwrap().stack@ == rep_seq(pre.rep) + rep_seq(mid.rep)
}

impl<T> Erep<T> {
    /// Consumes the wrapper and returns the raw value together with the
    /// optional diagnostic trail. Total; never fails.
    pub fn unwrap_with_err(self) -> (r: (T, Option<Ereport>))
        ensures
            r.0 == self.val,
            r.1 == self.rep,
    {
        (self.val, self.rep)
    }

    /// Maps a total function over the payload, keeping the diagnostic trail
    /// exactly as it was.
    pub fn vmap<F, U>(self, f: F) -> (r: Erep<U>) where F: Fn(T) -> U
        requires
            call_requires(f, (self.val,)),
        ensures
            call_ensures(f, (self.val,), r.val),
            r.rep == self.rep,
    {
        Erep { val: f(self.val), rep: self.rep }
    }

    /// Maps a function that itself returns a wrapped value, merging the
    /// trails: the result always carries `Some` trail, an empty-message node
    /// holding the incoming trail (if present) and then the new one (if
    /// present) as children — even when both were absent.
    pub fn map<F, U>(self, f: F) -> (r: Erep<U>) where F: Fn(T) -> Erep<U>
        requires
            call_requires(f, (self.val,)),
        ensures
            exists|mid: Erep<U>|
                #[trigger] call_ensures(f, (self.val,), mid) && map_post(self, mid, r),
    {
        let (vo, ro) = self.unwrap_with_err();
        let out = f(vo);
        let ghost mid = out;
        let (v, rn) = out.unwrap_with_err();
        let merged = Ereport::empty().push_opt(ro).push_opt(rn);
        let r = Erep { val: v, rep: Some(merged) };
        proof {
            assert(merged.stack@ =~= rep_seq(self.rep) + rep_seq(mid.rep));
            assert(call_ensures(f, (self.val,), mid) && map_post(self, mid, r));
        }
        r
    }
}

/// The fixed message recorded by [`Erep::omap`] when the mapped function
/// returns nothing and no override message was supplied.
pub open spec fn absent_default_msg() -> Seq<char> {
    "Got None, instead of Some"@
}

/// How the wrapper returned by [`Erep::omap`] relates to the consumed wrapper
/// `pre`, the override message `msg` and the outcome `out` of the mapped
/// function: on `Some` the payload is kept and the incoming trail is threaded
/// through unchanged; on `None` the payload becomes absent and the trail is
/// replaced wholesale by a fresh single-message node, carrying the override
/// message if one was given and the fixed default text otherwise.
pub open spec fn omap_post<T, U>(
    pre: Erep<T>,
    msg: Option<String>,
    out: Option<U>,
    r: Erep<Option<U>>,
) -> bool {
    match out {
        Some(u) => r.val == Some(u) && r.rep == pre.rep,
        None => {
            &&& r.val is None
            &&& r.rep is Some
            &&& r.rep.unwrap().stack@ == Seq::<Ereport>::empty()
            &&& r.rep.unwrap().msg@ == (match msg {
                Some(m) => m@,
                None => absent_default_msg(),
            })
        },
    }
}

/// How the wrapper returned by [`Erep::emap`] relates to the consumed wrapper
/// `pre`, the override message `msg` and the outcome `out` of the mapped
/// function: on `Ok` the payload is kept and the incoming trail is threaded
/// through unchanged; on `Err` the payload becomes absent and the trail is
/// replaced wholesale by a fresh single-message node — the prior trail is
/// dropped, not nested as a child. The node carries the override message if
/// one was given; otherwise it carries the rendered error text, about which
/// nothing further is promised.
pub open spec fn emap_post<T, U, E>(
    pre: Erep<T>,
    msg: Option<String>,
    out: Result<U, E>,
    r: Erep<Option<U>>,
) -> bool {
    match out {
        Ok(u) => r.val == Some(u) && r.rep == pre.rep,
        Err(_) => {
            &&& r.val is None
            &&& r.rep is Some
            &&& r.rep.unwrap().stack@ == Seq::<Ereport>::empty()
            &&& (msg is Some ==> r.rep.unwrap().msg@ == msg.unwrap()@)
        },
    }
}

/// Relies on std's `Debug` formatting to render a value as text; nothing is
/// assumed about the text it produces.
#[verifier::external_body]
fn debug_string<E: core::fmt::Debug>(e: &E) -> String {
    format!("{:?}", e)
}

impl<T> Erep<T> {
    /// Maps a function returning `Option<U>` over the payload. A present
    /// result keeps the incoming trail untouched; an absent one replaces it
    /// with a fresh single-message trail built from the override message, or
    /// from a fixed default text when none was given.
    pub fn omap<F, U>(self, f: F, msg: Option<String>) -> (r: Erep<Option<U>>) where
        F: Fn(T) -> Option<U>,

        requires
            call_requires(f, (self.val,)),
        ensures
            exists|out: Option<U>|
                #[trigger] call_ensures(f, (self.val,), out) && omap_post(self, msg, out, r),
    {
        let (vo, ro) = self.unwrap_with_err();
        let out = f(vo);
        let ghost gout = out;
        match (out, msg) {
            (Some(v), _) => {
                let r = Erep { val: Some(v), rep: ro };
                proof {
                    assert(call_ensures(f, (self.val,), gout) && omap_post(self, msg, gout, r));
                }
                r
            },
            (None, None) => {
                let r = Erep {
                    val: None::<U>,
                    rep: Some(Ereport::new("Got None, instead of Some".to_owned())),
                };
                proof {
                    assert(call_ensures(f, (self.val,), gout) && omap_post(self, msg, gout, r));
                }
                r
            },
            (None, Some(m)) => {
                let r = Erep { val: None::<U>, rep: Some(Ereport::new(m)) };
                proof {
                    assert(call_ensures(f, (self.val,), gout) && omap_post(self, msg, gout, r));
                }
                r
            },
        }
    }

    /// Maps a function returning `Result<U, E>` over the payload. A
    /// successful result keeps the incoming trail untouched; a failed one
    /// replaces it with a fresh single-message trail built from the override
    /// message, or from the rendered error value when none was given.
    pub fn emap<F, U, E>(self, f: F, msg: Option<String>) -> (r: Erep<Option<U>>) where
        F: Fn(T) -> Result<U, E>,
        E: core::fmt::Debug,

        requires
            call_requires(f, (self.val,)),
        ensures
            exists|out: Result<U, E>|
                #[trigger] call_ensures(f, (self.val,), out) && emap_post(self, msg, out, r),
    {
        let (vo, ro) = self.unwrap_with_err();
        let out = f(vo);
        let ghost gout = out;
        match (out, msg) {
            (Ok(v), _) => {
                let r = Erep { val: Some(v), rep: ro };
                proof {
                    assert(call_ensures(f, (self.val,), gout) && emap_post(self, msg, gout, r));
                }
                r
            },
            (Err(_), Some(m)) => {
                let r = Erep { val: None::<U>, rep: Some(Ereport::new(m)) };
                proof {
                    assert(call_ensures(f, (self.val,), gout) && emap_post(self, msg, gout, r));
                }
                r
            },
            (Err(e), None) => {
                let r = Erep { val: None::<U>, rep: Some(Ereport::new(debug_string(&e))) };
                proof {
                    assert(call_ensures(f, (self.val,), gout) && emap_post(self, msg, gout, r));
                }
                r
            },
        }
    }
}

/// When nothing has failed on either side, [`Erep::map`] still wraps the
/// merge: a wrapper whose trail is absent, mapped through a function whose
/// result also carries no trail, yields `Some` of the canonical empty trail —
/// not `None`.
pub proof fn lemma_map_absent_trails_yield_empty<T, U>(pre: Erep<T>, mid: Erep<U>, r: Erep<U>)
    requires
        pre.rep is None,
        mid.rep is None,
        map_post(pre, mid, r),
    ensures
        r.rep is Some,
        r.rep.unwrap().msg@ == Seq::<char>::empty(),
        r.rep.unwrap().stack@ == Seq::<Ereport>::empty(),
{
    assert(rep_seq(pre.rep) + rep_seq(mid.rep) =~= Seq::<Ereport>::empty());
}

/// Appending children one at a time yields the same ordering as a single
/// append of both: after pushing `c1` and then `c2`, the children are exactly
/// the original ones followed by `c1` and `c2`, in that order.
pub proof fn lemma_push_keeps_order(e: Ereport, c1: Ereport, c2: Ereport, r1: Ereport, r2: Ereport)
    requires
        push_post(e, c1, r1),
        push_post(r1, c2, r2),
    ensures
        r2.msg == e.msg,
        r2.stack@ == e.stack@ + seq![c1, c2],
{
    assert(r2.stack@ =~= e.stack@ + seq![c1, c2]);
}

} // verus!
