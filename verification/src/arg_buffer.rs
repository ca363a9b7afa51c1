use vstd::prelude::*;

verus! {

/// The length of every argument, in order.
pub open spec fn lengths_of(args: Seq<Seq<u8>>) -> Seq<usize> {
    args.map_values(|a: Seq<u8>| a.len() as usize)
}

/// In the concatenated data, argument `i` starts where the arguments before
/// it end, and takes up its own length.
proof fn lemma_arg_in_data(args: Seq<Seq<u8>>, i: int)
    requires
        0 <= i < args.len(),
    ensures
        ({
            let start: int = args.take(i).flatten().len() as int;
            &&& args.take(i + 1).flatten().len() == start + args[i].len()
            &&& start + args[i].len() <= args.flatten().len()
            &&& args.flatten().subrange(start, start + args[i].len()) == args[i]
        }),
{
    assert(args.take(i + 1) =~= args.take(i).push(args[i]));
    args.take(i).lemma_flatten_push(args[i]);
    assert(args =~= args.take(i + 1) + args.skip(i + 1));
    vstd::seq_lib::lemma_flatten_concat(args.take(i + 1), args.skip(i + 1));
    let start: int = args.take(i).flatten().len() as int;
    assert(args.flatten().subrange(start, start + args[i].len()) =~= args[i]);
}

/// Helper structure for providing arguments to all SC call functions other than async_call_raw.
/// It keeps argument lengths separately from the argument data itself.
/// Argument data is concatenated into a single byte buffer.
///
/// Its view is the sequence of arguments pushed so far, in order.
pub struct ArgBuffer {
    arg_lengths: Vec<usize>,
    arg_data: Vec<u8>,
    args: Ghost<Seq<Seq<u8>>>,
}

impl View for ArgBuffer {
    type V = Seq<Seq<u8>>;

    closed spec fn view(&self) -> Seq<Seq<u8>> {
        self.args@
    }
}

impl ArgBuffer {
    /// The lengths held are those of the arguments, and the data held is
    /// their concatenation.
    pub closed spec fn wf(&self) -> bool {
        &&& forall|i: int| 0 <= i < self.args@.len() ==> #[trigger] self.args@[i].len() <= usize::MAX
        &&& self.arg_lengths@ == lengths_of(self.args@)
        &&& self.arg_data@ == self.args@.flatten()
    }

    pub fn new() -> (res: Self)
        ensures
            res.wf(),
            res@ == Seq::<Seq<u8>>::empty(),
    {
        let res = ArgBuffer {
            arg_lengths: Vec::new(),
            arg_data: Vec::new(),
            args: Ghost(Seq::empty()),
        };
        assert(res.arg_lengths@ =~= lengths_of(res.args@));
        assert(res.arg_data@ =~= res.args@.flatten());
        res
    }

    /// Appends one argument.
    pub fn push_argument_bytes(&mut self, arg_bytes: &[u8])
        requires
            old(self).wf(),
        ensures
            final(self).wf(),
            final(self)@ == old(self)@.push(arg_bytes@),
    {
        let ghost old_args = self.args@;
        self.arg_lengths.push(arg_bytes.len());
        self.arg_data.extend_from_slice(arg_bytes);
        self.args = Ghost(old_args.push(arg_bytes@));
        proof {
            old_args.lemma_flatten_push(arg_bytes@);
            assert(self.arg_data@ =~= old_args.flatten() + arg_bytes@);
            assert(self.arg_lengths@ =~= lengths_of(self.args@));
        }
    }

    pub fn num_args(&self) -> (n: usize)
        requires
            self.wf(),
        ensures
            n == self@.len(),
    {
        self.arg_lengths.len()
    }

    /// The argument lengths, one per argument, in the order they were pushed.
    pub fn arg_lengths_bytes_ptr(&self) -> (lengths: &[usize])
        requires
            self.wf(),
        ensures
            lengths@ == lengths_of(self@),
            lengths@.len() == self@.len(),
            forall|i: int| 0 <= i < self@.len() ==> #[trigger] lengths@[i] == self@[i].len(),
    {
        self.arg_lengths.as_slice()
    }

    /// The concatenated argument data.
    pub fn arg_data_ptr(&self) -> (data: &[u8])
        requires
            self.wf(),
        ensures
            data@ == self@.flatten(),
    {
        self.arg_data.as_slice()
    }

    /// Calls `f` on every argument, in the order the arguments were pushed,
    /// and collects what each call returns.
    pub fn for_each_arg<F, R>(&self, f: F) -> (results: Vec<R>) where F: Fn(&[u8]) -> R
        requires
            self.wf(),
            forall|s: &[u8]| self@.contains(s@) ==> call_requires(f, (s,)),
        ensures
            results@.len() == self@.len(),
            forall|i: int, s: &[u8]|
                0 <= i < self@.len() && s@ == self@[i] ==> #[trigger] call_ensures(f, (s,), results@[i]),
    {
        let n = self.arg_lengths.len();
        let total = self.arg_data.len();
        let mut results: Vec<R> = Vec::new();
        let mut data_offset: usize = 0;
        let mut i: usize = 0;
        while i < n
            invariant
                self.wf(),
                n == self@.len(),
                total == self@.flatten().len(),
                0 <= i <= n,
                forall|s: &[u8]| self@.contains(s@) ==> call_requires(f, (s,)),
                data_offset == self@.take(i as int).flatten().len(),
                results@.len() == i,
                forall|k: int, s: &[u8]|
                    0 <= k < i && s@ == self@[k] ==> #[trigger] call_ensures(f, (s,), results@[k]),
            decreases n - i,
        {
            proof {
                lemma_arg_in_data(self@, i as int);
                assert(self.arg_lengths@[i as int] == self@[i as int].len());
            }
            let next_data_offset = data_offset + self.arg_lengths[i];
            let arg = vstd::slice::slice_subrange(self.arg_data.as_slice(), data_offset, next_data_offset);
            assert(arg@ == self@[i as int]);
            assert(self@.contains(arg@));
            let r = f(arg);
            proof {
                assert forall|s: &[u8]| s@ == self@[i as int] implies call_ensures(f, (s,), r) by {
                    assert(s =~= arg);
                }
            }
            results.push(r);
            data_offset = next_data_offset;
            i = i + 1;
        }
        assert(self@.take(n as int) =~= self@);
        results
    }

    pub fn is_empty(&self) -> (empty: bool)
        requires
            self.wf(),
        ensures
            empty == (self@.len() == 0),
    {
        self.arg_lengths.is_empty()
    }

    /// Concatenates 2 ArgBuffer. Consumes both arguments in the process.
    pub fn concat(self, other: ArgBuffer) -> (res: Self)
        requires
            self.wf(),
            other.wf(),
        ensures
            res.wf(),
            res@ == self@ + other@,
    {
        let mut this = self;
        let mut other = other;
        let ghost args = this.args@ + other.args@;
        this.arg_lengths.append(&mut other.arg_lengths);
        this.arg_data.append(&mut other.arg_data);
        this.args = Ghost(args);
        proof {
            vstd::seq_lib::lemma_flatten_concat(self.args@, other.args@);
            assert(this.arg_lengths@ =~= lengths_of(args));
            assert forall|i: int| 0 <= i < args.len() implies #[trigger] args[i].len() <= usize::MAX by {
                if i >= self.args@.len() {
                    assert(args[i] == other.args@[i - self.args@.len()]);
                }
            }
        }
        this
    }
}

impl Default for ArgBuffer {
    fn default() -> (res: Self)
        ensures
            res.wf(),
            res@ == Seq::<Seq<u8>>::empty(),
    {
        Self::new()
    }
}


/// The total length of all arguments.
pub open spec fn sum_lengths(lengths: Seq<usize>) -> nat
    decreases lengths.len(),
{
    if lengths.len() == 0 {
        0
    } else {
        sum_lengths(lengths.drop_last()) + lengths.last() as nat
    }
}

/// Concatenating two buffers concatenates their argument data and their
/// argument lengths.
pub proof fn law_concat_data(a: Seq<Seq<u8>>, b: Seq<Seq<u8>>)
    ensures
        (a + b).flatten() == a.flatten() + b.flatten(),
        lengths_of(a + b) == lengths_of(a) + lengths_of(b),
{
    vstd::seq_lib::lemma_flatten_concat(a, b);
    assert(lengths_of(a + b) =~= lengths_of(a) + lengths_of(b));
}

/// The argument data holds exactly as many bytes as the argument lengths add
/// up to.
pub proof fn law_data_length(args: Seq<Seq<u8>>)
    requires
        forall|i: int| 0 <= i < args.len() ==> #[trigger] args[i].len() <= usize::MAX,
    ensures
        args.flatten().len() == sum_lengths(lengths_of(args)),
    decreases args.len(),
{
    if args.len() > 0 {
        let init = args.drop_last();
        assert forall|i: int| 0 <= i < init.len() implies #[trigger] init[i].len() <= usize::MAX by {
            assert(init[i] == args[i]);
        }
        law_data_length(init);
        assert(args =~= init.push(args.last()));
        init.lemma_flatten_push(args.last());
        assert(lengths_of(args).drop_last() =~= lengths_of(init));
    }
}

} // verus!
