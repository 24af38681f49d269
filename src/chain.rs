use vstd::prelude::*;

verus! {

/// Maps a sequence of strings to the sequence of their character views.
pub open spec fn views_of(v: Seq<String>) -> Seq<Seq<char>> {
    v.map_values(|s: String| s@)
}

/// Extending a vector of strings extends its views by the view of the new element.
pub proof fn lemma_views_push(v: Seq<String>, s: String)
    ensures
        views_of(v.push(s)) == views_of(v).push(s@),
{
    assert(views_of(v.push(s)) =~= views_of(v).push(s@));
}

/// Growing a window of a vector by one element grows the views the same way.
pub proof fn lemma_views_window(v: Seq<String>, lo: int, hi: int)
    requires
        0 <= lo <= hi < v.len(),
    ensures
        views_of(v.subrange(lo, hi + 1)) == views_of(v.subrange(lo, hi)).push(v[hi]@),
{
    assert(v.subrange(lo, hi + 1) =~= v.subrange(lo, hi).push(v[hi]));
    lemma_views_push(v.subrange(lo, hi), v[hi]);
}

/// A rendered causal chain: the display string of an error followed by the
/// display strings of its causes, outermost first. It is never empty.
pub struct ErrorChain {
    /// Display string of the error itself.
    pub outermost: String,
    /// Display strings of its causes, the direct cause first.
    pub causes: Vec<String>,
}

impl View for ErrorChain {
    type V = Seq<Seq<char>>;

    open spec fn view(&self) -> Seq<Seq<char>> {
        seq![self.outermost@].add(views_of(self.causes@))
    }
}

/// Appends copies of `v[start..]` to `out`.
pub fn append_from(out: Vec<String>, v: &Vec<String>, start: usize) -> (r: Vec<String>)
    requires
        start <= v@.len(),
    ensures
        views_of(r@) == views_of(out@) + views_of(v@.skip(start as int)),
{
    let mut r = out;
    let ghost prefix = views_of(r@);
    let mut i: usize = start;
    while i < v.len()
        invariant
            start <= i <= v@.len(),
            views_of(r@) == prefix + views_of(v@.subrange(start as int, i as int)),
        decreases v@.len() - i,
    {
        let ghost before = r@;
        r.push(v[i].clone());
        proof {
            lemma_views_window(v@, start as int, i as int);
            lemma_views_push(before, v@[i as int]);
            assert(views_of(r@) =~= prefix + views_of(v@.subrange(start as int, i + 1)));
        }
        i = i + 1;
    }
    proof {
        assert(v@.subrange(start as int, v@.len() as int) =~= v@.skip(start as int));
    }
    r
}

impl ErrorChain {
    /// An error without a cause.
    pub fn new(message: String) -> (r: ErrorChain)
        ensures
            r@ == seq![message@],
    {
        let r = ErrorChain { outermost: message, causes: Vec::new() };
        proof {
            assert(r@ =~= seq![message@]);
        }
        r
    }

    /// An error whose direct cause is `cause`.
    pub fn caused_by(message: String, cause: &ErrorChain) -> (r: ErrorChain)
        ensures
            r@ == seq![message@].add(cause@),
    {
        let mut first: Vec<String> = Vec::new();
        first.push(cause.outermost.clone());
        proof {
            assert(views_of(first@) =~= seq![cause.outermost@]);
        }
        let causes = append_from(first, &cause.causes, 0);
        proof {
            assert(cause.causes@.skip(0) =~= cause.causes@);
        }
        let r = ErrorChain { outermost: message, causes };
        proof {
            assert(r@ =~= seq![message@].add(cause@));
        }
        r
    }

    /// The display string of the error itself, without its causes.
    pub fn display(&self) -> (r: String)
        ensures
            r@ == self@[0],
    {
        self.outermost.clone()
    }

    /// The next link of the chain, if there is one.
    pub fn cause(&self) -> (r: Option<ErrorChain>)
        ensures
            self@.len() == 1 ==> r is None,
            self@.len() > 1 ==> (r matches Some(c) && c@ == self@.skip(1)),
    {
        if self.causes.len() == 0 {
            proof {
                assert(self@.len() == 1);
            }
            None
        } else {
            let outermost = self.causes[0].clone();
            let causes = append_from(Vec::new(), &self.causes, 1);
            proof {
                assert(views_of(Seq::<String>::empty()) =~= Seq::<Seq<char>>::empty());
            }
            let c = ErrorChain { outermost, causes };
            proof {
                assert(c@ =~= self@.skip(1));
            }
            Some(c)
        }
    }

    /// The display strings of the whole chain, outermost first.
    pub fn displays(&self) -> (r: Vec<String>)
        ensures
            views_of(r@) == self@,
    {
        let mut first: Vec<String> = Vec::new();
        first.push(self.outermost.clone());
        proof {
            assert(views_of(first@) =~= seq![self.outermost@]);
            assert(self.causes@.skip(0) =~= self.causes@);
        }
        append_from(first, &self.causes, 0)
    }

    /// Copies the chain.
    pub fn duplicate(&self) -> (r: ErrorChain)
        ensures
            r@ == self@,
    {
        let causes = append_from(Vec::new(), &self.causes, 0);
        proof {
            assert(views_of(Seq::<String>::empty()) =~= Seq::<Seq<char>>::empty());
            assert(self.causes@.skip(0) =~= self.causes@);
        }
        let r = ErrorChain { outermost: self.outermost.clone(), causes };
        proof {
            assert(r@ =~= self@);
        }
        r
    }
}

} // verus!
