use vstd::prelude::*;

use crate::metadata::MethodMetadata;

verus! {

/// How an endpoint argument is supplied.
#[derive(Clone, Copy, Debug, PartialEq, Eq, Structural)]
pub enum ArgMetadata {
    /// An ordinary argument.
    Single,
    /// The payment amount.
    Payment,
    /// The payment token.
    PaymentToken,
    /// A variable number of arguments.
    VarArgs,
    /// The result of an asynchronous call.
    AsyncCallResultArg,
}

/// A method argument: its pattern and type, as written, and how it is supplied.
#[derive(Debug)]
pub struct MethodArg {
    pub pat: String,
    pub ty: String,
    pub metadata: ArgMetadata,
}

/// A contract trait method, with its metadata and arguments.
#[derive(Debug)]
pub struct Method {
    pub docs: Vec<String>,
    pub metadata: MethodMetadata,
    pub name: String,
    pub method_args: Vec<MethodArg>,
    pub payment_arg: Option<MethodArg>,
    pub token_arg: Option<MethodArg>,
    pub output_names: Vec<String>,
}

/// How the generated endpoint code loads the method's arguments.
#[derive(Debug)]
pub enum ArgLoading {
    /// The endpoint takes exactly `num_args` arguments; `arg_indices[k]` is
    /// the index that method argument `k` is loaded from, or `None` where the
    /// argument is not loaded from the call's arguments.
    Fixed { arg_indices: Vec<Option<i32>>, num_args: i32 },
    /// The arguments are loaded one after another, and none may be left over;
    /// `loaded[k]` says whether method argument `k` is loaded so.
    Variable { loaded: Vec<bool> },
}

/// How each argument is supplied, in order.
pub open spec fn arg_kinds(args: Seq<MethodArg>) -> Seq<ArgMetadata> {
    args.map_values(|a: MethodArg| a.metadata)
}

/// The number of ordinary arguments among `kinds`.
pub open spec fn count_single(kinds: Seq<ArgMetadata>) -> nat
    decreases kinds.len(),
{
    if kinds.len() == 0 {
        0
    } else {
        count_single(kinds.drop_last()) + if kinds.last() == ArgMetadata::Single {
            1nat
        } else {
            0nat
        }
    }
}

/// The index that argument `k` is loaded from when the number of arguments is fixed.
pub open spec fn fixed_arg_index(kinds: Seq<ArgMetadata>, k: int) -> Option<int> {
    if kinds[k] == ArgMetadata::Single {
        Some(count_single(kinds.take(k)) as int)
    } else {
        None
    }
}

/// An argument index taken as an integer.
pub open spec fn index_view(index: Option<i32>) -> Option<int> {
    match index {
        Some(i) => Some(i as int),
        None => None,
    }
}

/// Whether argument `k` is loaded when the number of arguments varies.
pub open spec fn variable_arg_loaded(kinds: Seq<ArgMetadata>, k: int) -> bool {
    kinds[k] == ArgMetadata::Single || kinds[k] == ArgMetadata::VarArgs
}

proof fn lemma_count_single_le(kinds: Seq<ArgMetadata>)
    ensures
        count_single(kinds) <= kinds.len(),
    decreases kinds.len(),
{
    if kinds.len() > 0 {
        lemma_count_single_le(kinds.drop_last());
    }
}

impl Method {
    pub open spec fn has_var_args(&self) -> bool {
        exists|k: int|
            0 <= k < self.method_args@.len() && #[trigger] self.method_args@[k].metadata
                == ArgMetadata::VarArgs
    }

    pub fn has_variable_nr_args(&self) -> (res: bool)
        ensures
            res == self.has_var_args(),
            res == (exists|k: int|
                0 <= k < self.method_args@.len() && #[trigger] self.method_args@[k].metadata
                    == ArgMetadata::VarArgs),
    {
        let mut k: usize = 0;
        while k < self.method_args.len()
            invariant
                0 <= k <= self.method_args@.len(),
                forall|j: int| 0 <= j < k ==> self.method_args@[j].metadata != ArgMetadata::VarArgs,
            decreases self.method_args@.len() - k,
        {
            if matches!(self.method_args[k].metadata, ArgMetadata::VarArgs) {
                return true;
            }
            k = k + 1;
        }
        false
    }

    /// Decides how the endpoint generated for the method loads its
    /// arguments: one after another where one of them is variadic, else each
    /// ordinary argument from its index, counted from 0 over the ordinary
    /// arguments only. Payment and payment token arguments are not loaded
    /// from the call's arguments.
    pub fn arg_loading(&self) -> (loading: ArgLoading)
        requires
            forall|k: int|
                0 <= k < self.method_args@.len() ==> #[trigger] self.method_args@[k].metadata
                    != ArgMetadata::AsyncCallResultArg,
            self.method_args@.len() < i32::MAX,
        ensures
            (loading is Variable) == (exists|k: int|
                0 <= k < self.method_args@.len() && #[trigger] self.method_args@[k].metadata
                    == ArgMetadata::VarArgs),
            loading matches ArgLoading::Variable { loaded } ==> {
                &&& loaded@.len() == self.method_args@.len()
                &&& forall|k: int|
                    0 <= k < self.method_args@.len() ==> #[trigger] loaded@[k] == (
                    self.method_args@[k].metadata == ArgMetadata::Single
                        || self.method_args@[k].metadata == ArgMetadata::VarArgs)
            },
            loading matches ArgLoading::Fixed { arg_indices, .. } ==> {
                &&& arg_indices@.len() == self.method_args@.len()
                &&& forall|k: int|
                    0 <= k < self.method_args@.len() ==> (#[trigger] arg_indices@[k] is Some) == (
                    self.method_args@[k].metadata == ArgMetadata::Single)
            },
            ({
                let kinds = arg_kinds(self.method_args@);
                match loading {
                    ArgLoading::Fixed { arg_indices, num_args } => {
                        &&& !self.has_var_args()
                        &&& num_args == count_single(kinds)
                        &&& arg_indices@.len() == kinds.len()
                        &&& forall|k: int|
                            0 <= k < kinds.len() ==> index_view(#[trigger] arg_indices@[k]) == fixed_arg_index(kinds, k)
                    },
                    ArgLoading::Variable { loaded } => {
                        &&& self.has_var_args()
                        &&& loaded@.len() == kinds.len()
                        &&& forall|k: int|
                            0 <= k < kinds.len() ==> #[trigger] loaded@[k] == variable_arg_loaded(
                                kinds,
                                k,
                            )
                    },
                }
            }),
    {
        let ghost kinds = arg_kinds(self.method_args@);
        let n = self.method_args.len();
        if self.has_variable_nr_args() {
            let mut loaded: Vec<bool> = Vec::new();
            let mut k: usize = 0;
            while k < n
                invariant
                    n == self.method_args@.len(),
                    kinds == arg_kinds(self.method_args@),
                    0 <= k <= n,
                    loaded@.len() == k,
                    forall|j: int| 0 <= j < k ==> #[trigger] loaded@[j] == variable_arg_loaded(kinds, j),
                decreases n - k,
            {
                let m = self.method_args[k].metadata;
                loaded.push(matches!(m, ArgMetadata::Single | ArgMetadata::VarArgs));
                k = k + 1;
            }
            ArgLoading::Variable { loaded }
        } else {
            let mut arg_indices: Vec<Option<i32>> = Vec::new();
            let mut num_args: i32 = 0;
            let mut k: usize = 0;
            while k < n
                invariant
                    n == self.method_args@.len(),
                    n < i32::MAX,
                    kinds == arg_kinds(self.method_args@),
                    0 <= k <= n,
                    num_args == count_single(kinds.take(k as int)),
                    arg_indices@.len() == k,
                    forall|j: int|
                        0 <= j < k ==> index_view(#[trigger] arg_indices@[j]) == fixed_arg_index(kinds, j),
                decreases n - k,
            {
                proof {
                    assert(kinds.take(k + 1).drop_last() =~= kinds.take(k as int));
                    lemma_count_single_le(kinds.take(k as int));
                }
                if matches!(self.method_args[k].metadata, ArgMetadata::Single) {
                    arg_indices.push(Some(num_args));
                    num_args = num_args + 1;
                } else {
                    arg_indices.push(None);
                }
                k = k + 1;
            }
            assert(kinds.take(n as int) =~= kinds);
            ArgLoading::Fixed { arg_indices, num_args }
        }
    }
}


proof fn lemma_count_single_take_monotonic(kinds: Seq<ArgMetadata>, i: int, j: int)
    requires
        0 <= i <= j <= kinds.len(),
    ensures
        count_single(kinds.take(i)) <= count_single(kinds.take(j)),
    decreases j - i,
{
    if i < j {
        lemma_count_single_take_monotonic(kinds, i, j - 1);
        assert(kinds.take(j).drop_last() =~= kinds.take(j - 1));
    }
}

/// With a fixed number of arguments, the ordinary arguments are loaded from
/// distinct indices, increasing in the order of the arguments, all below the
/// number of arguments the endpoint takes.
pub proof fn law_fixed_indices_in_order(kinds: Seq<ArgMetadata>, k1: int, k2: int)
    requires
        0 <= k1 < k2 < kinds.len(),
        kinds[k1] == ArgMetadata::Single,
        kinds[k2] == ArgMetadata::Single,
    ensures
        fixed_arg_index(kinds, k1).unwrap() < fixed_arg_index(kinds, k2).unwrap(),
        fixed_arg_index(kinds, k2).unwrap() < count_single(kinds),
{
    assert(kinds.take(k1 + 1).drop_last() =~= kinds.take(k1));
    lemma_count_single_take_monotonic(kinds, k1 + 1, k2);
    assert(kinds.take(k2 + 1).drop_last() =~= kinds.take(k2));
    lemma_count_single_take_monotonic(kinds, k2 + 1, kinds.len() as int);
    assert(kinds.take(kinds.len() as int) =~= kinds);
}


/// A method that has a variadic argument, wherever it stands among the
/// arguments, takes a variable number of arguments; one without takes a
/// fixed number.
pub proof fn law_var_args_decide_arity(m: Method, k: int)
    ensures
        0 <= k < m.method_args@.len() && m.method_args@[k].metadata == ArgMetadata::VarArgs
            ==> m.has_var_args(),
        (forall|j: int| 0 <= j < m.method_args@.len() ==> m.method_args@[j].metadata != ArgMetadata::VarArgs)
            ==> !m.has_var_args(),
{
}

/// When arguments are loaded one after another, ordinary and variadic
/// arguments are loaded, and payment and payment token arguments never are.
pub proof fn law_variable_loading_skips_payments(kinds: Seq<ArgMetadata>, k: int)
    requires
        0 <= k < kinds.len(),
    ensures
        kinds[k] == ArgMetadata::Single ==> variable_arg_loaded(kinds, k),
        kinds[k] == ArgMetadata::VarArgs ==> variable_arg_loaded(kinds, k),
        kinds[k] == ArgMetadata::Payment ==> !variable_arg_loaded(kinds, k),
        kinds[k] == ArgMetadata::PaymentToken ==> !variable_arg_loaded(kinds, k),
{
}

/// With a fixed number of arguments, exactly the ordinary arguments get an
/// index; payment and payment token arguments get none.
pub proof fn law_fixed_loading_skips_payments(kinds: Seq<ArgMetadata>, k: int)
    requires
        0 <= k < kinds.len(),
    ensures
        (fixed_arg_index(kinds, k) is Some) == (kinds[k] == ArgMetadata::Single),
{
}

/// The number of ordinary arguments counts the arguments whose kind is
/// `Single`.
pub proof fn law_count_single_counts(kinds: Seq<ArgMetadata>)
    ensures
        count_single(kinds) == kinds.filter(|x: ArgMetadata| x == ArgMetadata::Single).len(),
    decreases kinds.len(),
{
    if kinds.len() > 0 {
        let pred = |x: ArgMetadata| x == ArgMetadata::Single;
        law_count_single_counts(kinds.drop_last());
        kinds.drop_last().lemma_filter_push(kinds.last(), pred);
        assert(kinds.drop_last().push(kinds.last()) =~= kinds);
    } else {
        assert(kinds.filter(|x: ArgMetadata| x == ArgMetadata::Single) =~= kinds);
    }
}

/// With a fixed number of arguments, an ordinary argument is loaded from the
/// index that counts the ordinary arguments before it, so the first one is
/// loaded from index 0, and the endpoint takes as many arguments as there
/// are ordinary ones.
pub proof fn law_fixed_index_counts_ordinary_arguments(kinds: Seq<ArgMetadata>, k: int)
    requires
        0 <= k < kinds.len(),
        kinds[k] == ArgMetadata::Single,
    ensures
        fixed_arg_index(kinds, k) == Some(
            kinds.take(k).filter(|x: ArgMetadata| x == ArgMetadata::Single).len() as int,
        ),
        (forall|j: int| 0 <= j < k ==> kinds[j] != ArgMetadata::Single) ==> fixed_arg_index(kinds, k)
            == Some(0int),
{
    law_count_single_counts(kinds.take(k));
    if forall|j: int| 0 <= j < k ==> kinds[j] != ArgMetadata::Single {
        lemma_no_single_counts_zero(kinds.take(k));
    }
}

proof fn lemma_no_single_counts_zero(kinds: Seq<ArgMetadata>)
    requires
        forall|j: int| 0 <= j < kinds.len() ==> kinds[j] != ArgMetadata::Single,
    ensures
        count_single(kinds) == 0,
    decreases kinds.len(),
{
    if kinds.len() > 0 {
        lemma_no_single_counts_zero(kinds.drop_last());
    }
}

} // verus!
