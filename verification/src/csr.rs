use crate::arrow::{
    all_present, all_valid, lemma_invalid_slots_zero_iff, lemma_null_slots_zero_iff,
    float_array_len, float_array_null_count, float_validity, invalid_slots, lemma_no_nulls,
    null_slots, slot_values, u64_array_len, u64_array_null_count, u64_array_values, u64_slots,
    FloatColumn, U64Column,
};
use crate::error::{invalid_input, Error, Result};
use vstd::prelude::*;
use vstd::string::StringExecFns;

verus! {

/// `res` is the refusal of an input with the message `msg`.
pub open spec fn refused_with<T>(res: Result<T>, msg: Seq<char>) -> bool {
    res matches Err(Error::InvalidInput(m)) && m@ == msg
}

/// The message for an array named `name` that holds a null slot.
pub open spec fn nulls_message(name: Seq<char>) -> Seq<char> {
    name + " must not contain nulls"@
}

/// Every offset is no greater than any later one.
pub open spec fn nondecreasing(s: Seq<u64>) -> bool {
    forall|i: int, j: int| 0 <= i <= j < s.len() ==> s[i] <= s[j]
}

/// What is wrong with the offsets `offsets` of a CSR array named `name`, for
/// `n` nodes whose neighbours fill an indices array of length `indices_len`:
/// `None` when nothing is, else the message of the first check that fails.
pub open spec fn indptr_problem(
    name: Seq<char>,
    offsets: Seq<u64>,
    n: int,
    indices_len: int,
) -> Option<Seq<char>> {
    if offsets.len() != n + 1 {
        Some(name + " length must be n + 1"@)
    } else if offsets[0] != 0 {
        Some(name + " must start at 0"@)
    } else if offsets.last() != indices_len {
        Some(name + " last offset must equal indices length"@)
    } else if !nondecreasing(offsets) {
        Some(name + " must be monotonically increasing"@)
    } else {
        None
    }
}

/// Builds `name` followed by `suffix`.
fn message(name: &str, suffix: &str) -> (res: String)
    ensures
        res@ == name@ + suffix@,
{
    String::from_str(name).concat(suffix)
}

/// Refuses an integer array that holds a null slot.
fn validate_primitive_array(name: &str, array: &U64Column) -> (res: Result<()>)
    ensures
        res is Ok <==> null_slots(u64_slots(*array)) == 0,
        res is Err ==> refused_with(res, nulls_message(name@)),
{
    if u64_array_null_count(array) != 0 {
        return Err(invalid_input(message(name, " must not contain nulls")));
    }
    Ok(())
}

/// Refuses a weight array that holds a null slot.
fn validate_float_array(name: &str, array: &FloatColumn) -> (res: Result<()>)
    ensures
        res is Ok <==> invalid_slots(float_validity(*array)) == 0,
        res is Err ==> refused_with(res, nulls_message(name@)),
{
    if float_array_null_count(array) != 0 {
        return Err(invalid_input(message(name, " must not contain nulls")));
    }
    Ok(())
}

/// Checks the offsets array `indptr` of a CSR graph with `n` nodes whose
/// indices array has `indices_len` entries.
fn validate_indptr(name: &str, indptr: &U64Column, n: u64, indices_len: usize) -> (res: Result<()>)
    requires
        null_slots(u64_slots(*indptr)) == 0,
    ensures
        res is Ok <==> indptr_problem(
            name@,
            slot_values(u64_slots(*indptr)),
            n as int,
            indices_len as int,
        ) is None,
        res is Err ==> refused_with(
            res,
            indptr_problem(
                name@,
                slot_values(u64_slots(*indptr)),
                n as int,
                indices_len as int,
            )->0,
        ),
{
    let ghost slots = u64_slots(*indptr);
    let ghost offsets = slot_values(slots);
    proof {
        lemma_no_nulls(slots);
    }
    let values = u64_array_values(indptr);
    assert(values@ =~= offsets);
    let len = u64_array_len(indptr);
    if n == u64::MAX || len as u64 != n + 1 {
        return Err(invalid_input(message(name, " length must be n + 1")));
    }
    if values[0] != 0 {
        return Err(invalid_input(message(name, " must start at 0")));
    }
    if values[len - 1] != indices_len as u64 {
        return Err(invalid_input(message(name, " last offset must equal indices length")));
    }
    let mut k: usize = 0;
    while k + 1 < len
        invariant
            len == values@.len(),
            values@ == offsets,
            offsets == slot_values(u64_slots(*indptr)),
            len >= 1,
            k < len,
            offsets.len() == n + 1,
            offsets[0] == 0,
            offsets.last() == indices_len,
            forall|i: int, j: int| 0 <= i <= j <= k ==> offsets[i] <= offsets[j],
        decreases len - k,
    {
        if values[k] > values[k + 1] {
            assert(!nondecreasing(offsets)) by {
                assert(offsets[k as int] > offsets[k + 1]);
            }
            return Err(invalid_input(message(name, " must be monotonically increasing")));
        }
        assert forall|i: int, j: int| 0 <= i <= j <= k + 1 implies offsets[i] <= offsets[j] by {
            if j == k + 1 && i <= k {
                assert(offsets[i] <= offsets[k as int]);
            }
        }
        k = k + 1;
    }
    Ok(())
}

} // verus!

verus! {

/// What a read-only CSR graph is made of, as values: the node count, whether
/// edges are directed, and the slots of each array (`None` where an optional
/// array was not given).
pub struct CsrModel {
    pub n: int,
    pub directed: bool,
    pub out_indices: Seq<Option<u64>>,
    pub out_indptr: Seq<Option<u64>>,
    pub in_indices: Option<Seq<Option<u64>>>,
    pub in_indptr: Option<Seq<Option<u64>>>,
    pub out_weights: Option<Seq<bool>>,
    pub in_weights: Option<Seq<bool>>,
}

/// The number of incoming neighbour entries: the length of `in_indices`, or
/// 0 when it was not given.
pub open spec fn in_indices_len(m: CsrModel) -> int {
    match m.in_indices {
        Some(s) => s.len() as int,
        None => 0,
    }
}

/// What is wrong with the arrays of `m`: `None` when a graph can be built
/// from them, else the message of the first check that fails, in the order
/// in which they are made.
pub open spec fn csr_problem(m: CsrModel) -> Option<Seq<char>> {
    if null_slots(m.out_indices) != 0 {
        Some(nulls_message("out_indices"@))
    } else if null_slots(m.out_indptr) != 0 {
        Some(nulls_message("out_indptr"@))
    } else if indptr_problem(
        "out_indptr"@,
        slot_values(m.out_indptr),
        m.n,
        m.out_indices.len() as int,
    ) is Some {
        indptr_problem("out_indptr"@, slot_values(m.out_indptr), m.n, m.out_indices.len() as int)
    } else if m.directed && (m.in_indices is None || m.in_indptr is None) {
        Some("directed GraphR requires incoming CSR arrays"@)
    } else if m.in_indices matches Some(s) && null_slots(s) != 0 {
        Some(nulls_message("in_indices"@))
    } else if m.in_indptr matches Some(p) && null_slots(p) != 0 {
        Some(nulls_message("in_indptr"@))
    } else if m.in_indptr matches Some(p) && indptr_problem(
        "in_indptr"@,
        slot_values(p),
        m.n,
        in_indices_len(m),
    ) is Some {
        indptr_problem("in_indptr"@, slot_values(m.in_indptr->0), m.n, in_indices_len(m))
    } else if m.out_weights matches Some(w) && invalid_slots(w) != 0 {
        Some(nulls_message("out_weights"@))
    } else if m.out_weights matches Some(w) && w.len() != m.out_indices.len() {
        Some("out_weights length must match out_indices"@)
    } else if m.in_weights matches Some(w) && invalid_slots(w) != 0 {
        Some(nulls_message("in_weights"@))
    } else if m.in_weights matches Some(w) && w.len() != in_indices_len(m) {
        Some("in_weights length must match in_indices"@)
    } else {
        None
    }
}

/// The slots of an optional integer array.
pub open spec fn opt_u64_slots(a: Option<U64Column>) -> Option<Seq<Option<u64>>> {
    match a {
        Some(c) => Some(u64_slots(c)),
        None => None,
    }
}

/// The validity of an optional weight array.
pub open spec fn opt_float_validity(a: Option<FloatColumn>) -> Option<Seq<bool>> {
    match a {
        Some(c) => Some(float_validity(c)),
        None => None,
    }
}

/// The model of the arrays handed to [`GraphR::from_csr_with_inputs`].
#[allow(clippy::too_many_arguments)]
pub open spec fn model_of(
    n: u64,
    directed: bool,
    out_indices: U64Column,
    out_indptr: U64Column,
    in_indices: Option<U64Column>,
    in_indptr: Option<U64Column>,
    out_weights: Option<FloatColumn>,
    in_weights: Option<FloatColumn>,
) -> CsrModel {
    CsrModel {
        n: n as int,
        directed,
        out_indices: u64_slots(out_indices),
        out_indptr: u64_slots(out_indptr),
        in_indices: opt_u64_slots(in_indices),
        in_indptr: opt_u64_slots(in_indptr),
        out_weights: opt_float_validity(out_weights),
        in_weights: opt_float_validity(in_weights),
    }
}

/// `res` is what building a graph from the arrays modelled by `m` gives: the
/// graph holding exactly those arrays when every check passes, else the
/// refusal that names the first check that fails.
pub open spec fn built_from(res: Result<GraphR>, m: CsrModel) -> bool {
    &&& res is Ok <==> csr_problem(m) is None
    &&& res matches Ok(g) ==> g@ == m
    &&& res is Err ==> refused_with(res, csr_problem(m)->0)
}

/// The arrays of a read-only graph in compressed sparse row form, checked,
/// and kept for as long as the graph lives.
pub struct GraphR {
    n: u64,
    directed: bool,
    out_indices: U64Column,
    out_indptr: U64Column,
    in_indices: Option<U64Column>,
    in_indptr: Option<U64Column>,
    out_weights: Option<FloatColumn>,
    in_weights: Option<FloatColumn>,
}

impl View for GraphR {
    type V = CsrModel;

    closed spec fn view(&self) -> CsrModel {
        CsrModel {
            n: self.n as int,
            directed: self.directed,
            out_indices: u64_slots(self.out_indices),
            out_indptr: u64_slots(self.out_indptr),
            in_indices: opt_u64_slots(self.in_indices),
            in_indptr: opt_u64_slots(self.in_indptr),
            out_weights: opt_float_validity(self.out_weights),
            in_weights: opt_float_validity(self.in_weights),
        }
    }
}

impl GraphR {
    /// Every graph of this type passed the checks.
    #[verifier::type_invariant]
    spec fn accepted(self) -> bool {
        csr_problem(self@) is None
    }

    /// Checks the arrays of a read-only graph with `n` nodes and keeps them.
    /// `out_indptr[u]..out_indptr[u + 1]` is the range of `out_indices` that
    /// holds the out-neighbours of `u`; the incoming arrays, which a directed
    /// graph needs, are laid out the same way; the weight arrays give one
    /// weight per entry of the matching indices array.
    #[allow(clippy::too_many_arguments)]
    pub fn from_csr_with_inputs(
        n: u64,
        directed: bool,
        out_indices: U64Column,
        out_indptr: U64Column,
        in_indices: Option<U64Column>,
        in_indptr: Option<U64Column>,
        out_weights: Option<FloatColumn>,
        in_weights: Option<FloatColumn>,
    ) -> (res: Result<GraphR>)
        ensures
            built_from(
                res,
                model_of(
                    n,
                    directed,
                    out_indices,
                    out_indptr,
                    in_indices,
                    in_indptr,
                    out_weights,
                    in_weights,
                ),
            ),
    {
        let ghost m = model_of(
            n,
            directed,
            out_indices,
            out_indptr,
            in_indices,
            in_indptr,
            out_weights,
            in_weights,
        );
        validate_primitive_array("out_indices", &out_indices)?;
        validate_primitive_array("out_indptr", &out_indptr)?;
        let out_len = u64_array_len(&out_indices);
        validate_indptr("out_indptr", &out_indptr, n, out_len)?;
        if directed && (in_indices.is_none() || in_indptr.is_none()) {
            return Err(invalid_input(String::from_str("directed GraphR requires incoming CSR arrays")));
        }
        let in_len: usize = match &in_indices {
            Some(arr) => u64_array_len(arr),
            None => 0,
        };
        if let Some(arr) = &in_indices {
            validate_primitive_array("in_indices", arr)?;
        }
        if let Some(arr) = &in_indptr {
            validate_primitive_array("in_indptr", arr)?;
            validate_indptr("in_indptr", arr, n, in_len)?;
        }
        if let Some(arr) = &out_weights {
            validate_float_array("out_weights", arr)?;
            if float_array_len(arr) != out_len {
                return Err(invalid_input(String::from_str("out_weights length must match out_indices")));
            }
        }
        if let Some(arr) = &in_weights {
            validate_float_array("in_weights", arr)?;
            if float_array_len(arr) != in_len {
                return Err(invalid_input(String::from_str("in_weights length must match in_indices")));
            }
        }
        let g = GraphR {
            n,
            directed,
            out_indices,
            out_indptr,
            in_indices,
            in_indptr,
            out_weights,
            in_weights,
        };
        assert(g@ == m);
        Ok(g)
    }

    /// A graph with `n` nodes from its outgoing arrays alone.
    pub fn from_csr(n: u64, directed: bool, out_indices: U64Column, out_indptr: U64Column) -> (res:
        Result<GraphR>)
        ensures
            built_from(res, model_of(n, directed, out_indices, out_indptr, None, None, None, None)),
    {
        Self::from_csr_with_inputs(n, directed, out_indices, out_indptr, None, None, None, None)
    }

    /// A directed graph with `n` nodes from its outgoing and incoming arrays.
    pub fn from_directed_csr(
        n: u64,
        out_indices: U64Column,
        out_indptr: U64Column,
        in_indices: U64Column,
        in_indptr: U64Column,
    ) -> (res: Result<GraphR>)
        ensures
            built_from(
                res,
                model_of(
                    n,
                    true,
                    out_indices,
                    out_indptr,
                    Some(in_indices),
                    Some(in_indptr),
                    None,
                    None,
                ),
            ),
    {
        Self::from_csr_with_inputs(
            n,
            true,
            out_indices,
            out_indptr,
            Some(in_indices),
            Some(in_indptr),
            None,
            None,
        )
    }

    /// The number of nodes the graph was built with.
    pub fn n(&self) -> (r: u64)
        ensures
            r == self@.n,
            csr_problem(self@) is None,
    {
        proof {
            use_type_invariant(self);
        }
        self.n
    }

    /// Whether the graph's edges are directed.
    pub fn is_directed(&self) -> (r: bool)
        ensures
            r == self@.directed,
            csr_problem(self@) is None,
    {
        proof {
            use_type_invariant(self);
        }
        self.directed
    }

    /// The outgoing neighbour array.
    pub fn out_indices(&self) -> (r: &U64Column)
        ensures
            u64_slots(*r) == self@.out_indices,
            csr_problem(self@) is None,
    {
        proof {
            use_type_invariant(self);
        }
        &self.out_indices
    }

    /// The outgoing offset array.
    pub fn out_indptr(&self) -> (r: &U64Column)
        ensures
            u64_slots(*r) == self@.out_indptr,
            csr_problem(self@) is None,
    {
        proof {
            use_type_invariant(self);
        }
        &self.out_indptr
    }

    /// The incoming neighbour array, where one was given.
    pub fn in_indices(&self) -> (r: Option<&U64Column>)
        ensures
            r is Some <==> self@.in_indices is Some,
            r matches Some(c) ==> Some(u64_slots(*c)) == self@.in_indices,
            csr_problem(self@) is None,
    {
        proof {
            use_type_invariant(self);
        }
        self.in_indices.as_ref()
    }

    /// The incoming offset array, where one was given.
    pub fn in_indptr(&self) -> (r: Option<&U64Column>)
        ensures
            r is Some <==> self@.in_indptr is Some,
            r matches Some(c) ==> Some(u64_slots(*c)) == self@.in_indptr,
            csr_problem(self@) is None,
    {
        proof {
            use_type_invariant(self);
        }
        self.in_indptr.as_ref()
    }

    /// The weights of the outgoing edges, where they were given.
    pub fn out_weights(&self) -> (r: Option<&FloatColumn>)
        ensures
            r is Some <==> self@.out_weights is Some,
            r matches Some(c) ==> Some(float_validity(*c)) == self@.out_weights,
            csr_problem(self@) is None,
    {
        proof {
            use_type_invariant(self);
        }
        self.out_weights.as_ref()
    }

    /// The weights of the incoming edges, where they were given.
    pub fn in_weights(&self) -> (r: Option<&FloatColumn>)
        ensures
            r is Some <==> self@.in_weights is Some,
            r matches Some(c) ==> Some(float_validity(*c)) == self@.in_weights,
            csr_problem(self@) is None,
    {
        proof {
            use_type_invariant(self);
        }
        self.in_weights.as_ref()
    }
}

} // verus!

verus! {

/// In a graph whose arrays pass the checks, every slot of every integer
/// array holds a value, and each node's neighbours, outgoing and (where the
/// incoming arrays were given) incoming, occupy a range of the indices array
/// that lies inside it.
pub proof fn lemma_accepted_rows_in_bounds(m: CsrModel, u: int)
    requires
        csr_problem(m) is None,
        0 <= u < m.n,
    ensures
        forall|i: int| 0 <= i < m.out_indices.len() ==> (#[trigger] m.out_indices[i]) is Some,
        forall|i: int| 0 <= i < m.out_indptr.len() ==> (#[trigger] m.out_indptr[i]) is Some,
        ({
            let off = slot_values(m.out_indptr);
            &&& off.len() == m.n + 1
            &&& off[0] == 0
            &&& off[u] <= off[u + 1] <= m.out_indices.len()
        }),
        m.in_indices matches Some(s) ==> forall|i: int|
            0 <= i < s.len() ==> (#[trigger] s[i]) is Some,
        m.in_indptr matches Some(p) ==> ({
            let off = slot_values(p);
            &&& forall|i: int| 0 <= i < p.len() ==> (#[trigger] p[i]) is Some
            &&& off.len() == m.n + 1
            &&& off[0] == 0
            &&& off[u] <= off[u + 1] <= in_indices_len(m)
        }),
{
    lemma_no_nulls(m.out_indices);
    lemma_no_nulls(m.out_indptr);
    let off = slot_values(m.out_indptr);
    assert(indptr_problem("out_indptr"@, off, m.n, m.out_indices.len() as int) is None);
    assert(off[u] <= off[u + 1]);
    assert(off[u + 1] <= off[m.n]);
    if let Some(s) = m.in_indices {
        lemma_no_nulls(s);
    }
    if let Some(p) = m.in_indptr {
        lemma_no_nulls(p);
        let off = slot_values(p);
        assert(indptr_problem("in_indptr"@, off, m.n, in_indices_len(m)) is None);
        assert(off[u] <= off[u + 1]);
        assert(off[u + 1] <= off[m.n]);
    }
}

/// A graph whose arrays pass the checks has its incoming arrays when it is
/// directed, and every weight array it was given has no null slot and one
/// weight per entry of the matching indices array.
pub proof fn lemma_accepted_shape(m: CsrModel)
    requires
        csr_problem(m) is None,
    ensures
        m.directed ==> m.in_indices is Some && m.in_indptr is Some,
        m.out_weights matches Some(w) ==> invalid_slots(w) == 0 && w.len() == m.out_indices.len(),
        m.in_weights matches Some(w) ==> invalid_slots(w) == 0 && w.len() == in_indices_len(m),
{
}

/// A directed graph is refused when an incoming array is missing.
pub proof fn lemma_directed_needs_incoming(m: CsrModel)
    requires
        m.directed,
        m.in_indices is None || m.in_indptr is None,
    ensures
        csr_problem(m) is Some,
{
}

} // verus!

verus! {

/// Offsets for `n` nodes over an indices array of `len` entries are well
/// formed: one offset per node and one more, the first 0, the last `len`,
/// and no offset greater than a later one.
pub open spec fn offsets_fit(offsets: Seq<u64>, n: int, len: int) -> bool {
    &&& offsets.len() == n + 1
    &&& offsets[0] == 0
    &&& offsets.last() == len
    &&& forall|i: int, j: int| 0 <= i <= j < offsets.len() ==> offsets[i] <= offsets[j]
}

/// The arrays modelled by `m` form a read-only CSR graph: every given
/// integer array is free of null slots, each offset array fits its indices
/// array (an absent incoming indices array counting as empty), a directed
/// graph has both incoming arrays, and each given weight array is free of
/// null slots with one weight per entry of its indices array. Nothing else
/// is asked: not of `n`, not of how far apart two offsets are, and not of
/// weight arrays that were not given.
pub open spec fn csr_well_formed(m: CsrModel) -> bool {
    &&& all_present(m.out_indices)
    &&& all_present(m.out_indptr)
    &&& offsets_fit(slot_values(m.out_indptr), m.n, m.out_indices.len() as int)
    &&& m.directed ==> m.in_indices is Some && m.in_indptr is Some
    &&& m.in_indices matches Some(s) ==> all_present(s)
    &&& m.in_indptr matches Some(p) ==> all_present(p) && offsets_fit(
        slot_values(p),
        m.n,
        in_indices_len(m),
    )
    &&& m.out_weights matches Some(w) ==> all_valid(w) && w.len() == m.out_indices.len()
    &&& m.in_weights matches Some(w) ==> all_valid(w) && w.len() == in_indices_len(m)
}

/// The offsets check passes exactly on well-formed offsets, whatever `n` is
/// and however far apart consecutive offsets are.
pub proof fn lemma_indptr_check_exact(name: Seq<char>, offsets: Seq<u64>, n: int, len: int)
    ensures
        indptr_problem(name, offsets, n, len) is None <==> offsets_fit(offsets, n, len),
{
}

/// The checks accept exactly the well-formed CSR arrays.
pub proof fn lemma_accepted_iff_well_formed(m: CsrModel)
    ensures
        csr_problem(m) is None <==> csr_well_formed(m),
{
    lemma_null_slots_zero_iff(m.out_indices);
    lemma_null_slots_zero_iff(m.out_indptr);
    if let Some(s) = m.in_indices {
        lemma_null_slots_zero_iff(s);
    }
    if let Some(p) = m.in_indptr {
        lemma_null_slots_zero_iff(p);
        lemma_indptr_check_exact("in_indptr"@, slot_values(p), m.n, in_indices_len(m));
    }
    if let Some(w) = m.out_weights {
        lemma_invalid_slots_zero_iff(w);
    }
    if let Some(w) = m.in_weights {
        lemma_invalid_slots_zero_iff(w);
    }
    lemma_indptr_check_exact(
        "out_indptr"@,
        slot_values(m.out_indptr),
        m.n,
        m.out_indices.len() as int,
    );
}

/// Building a graph succeeds exactly on well-formed CSR arrays, and the
/// graph then holds those arrays; otherwise the input is refused.
pub proof fn lemma_built_iff_well_formed(res: Result<GraphR>, m: CsrModel)
    requires
        built_from(res, m),
    ensures
        res is Ok <==> csr_well_formed(m),
        res matches Ok(g) ==> g@ == m,
        !csr_well_formed(m) ==> res matches Err(Error::InvalidInput(_)),
{
    lemma_accepted_iff_well_formed(m);
}

} // verus!

verus! {

/// The message of each refusal: the checks are made in a fixed order, and the
/// first one that fails names the array at fault and what is wrong with it.
pub proof fn lemma_refusal_messages(m: CsrModel)
    ensures
        !all_present(m.out_indices) ==> csr_problem(m) == Some(
            "out_indices must not contain nulls"@,
        ),
        all_present(m.out_indices) && !all_present(m.out_indptr) ==> csr_problem(m) == Some(
            "out_indptr must not contain nulls"@,
        ),
        ({
            let off = slot_values(m.out_indptr);
            let good = all_present(m.out_indices) && all_present(m.out_indptr);
            &&& good && off.len() != m.n + 1 ==> csr_problem(m) == Some(
                "out_indptr length must be n + 1"@,
            )
            &&& good && off.len() == m.n + 1 && off[0] != 0 ==> csr_problem(m) == Some(
                "out_indptr must start at 0"@,
            )
            &&& good && off.len() == m.n + 1 && off[0] == 0 && off.last() != m.out_indices.len()
                ==> csr_problem(m) == Some("out_indptr last offset must equal indices length"@)
            &&& good && off.len() == m.n + 1 && off[0] == 0 && off.last() == m.out_indices.len()
                && (exists|i: int, j: int| 0 <= i <= j < off.len() && off[i] > off[j])
                ==> csr_problem(m) == Some("out_indptr must be monotonically increasing"@)
        }),
        all_present(m.out_indices) && all_present(m.out_indptr) && offsets_fit(
            slot_values(m.out_indptr),
            m.n,
            m.out_indices.len() as int,
        ) && m.directed && (m.in_indices is None || m.in_indptr is None) ==> csr_problem(m)
            == Some("directed GraphR requires incoming CSR arrays"@),
{
    reveal_strlit("out_indices");
    reveal_strlit("out_indptr");
    reveal_strlit(" must not contain nulls");
    reveal_strlit("out_indices must not contain nulls");
    reveal_strlit("out_indptr must not contain nulls");
    reveal_strlit(" length must be n + 1");
    reveal_strlit("out_indptr length must be n + 1");
    reveal_strlit(" must start at 0");
    reveal_strlit("out_indptr must start at 0");
    reveal_strlit(" last offset must equal indices length");
    reveal_strlit("out_indptr last offset must equal indices length");
    reveal_strlit(" must be monotonically increasing");
    reveal_strlit("out_indptr must be monotonically increasing");
    lemma_null_slots_zero_iff(m.out_indices);
    lemma_null_slots_zero_iff(m.out_indptr);
    lemma_indptr_check_exact(
        "out_indptr"@,
        slot_values(m.out_indptr),
        m.n,
        m.out_indices.len() as int,
    );
    assert(nulls_message("out_indices"@) =~= "out_indices must not contain nulls"@);
    assert(nulls_message("out_indptr"@) =~= "out_indptr must not contain nulls"@);
    assert("out_indptr"@ + " length must be n + 1"@ =~= "out_indptr length must be n + 1"@);
    assert("out_indptr"@ + " must start at 0"@ =~= "out_indptr must start at 0"@);
    assert("out_indptr"@ + " last offset must equal indices length"@
        =~= "out_indptr last offset must equal indices length"@);
    assert("out_indptr"@ + " must be monotonically increasing"@
        =~= "out_indptr must be monotonically increasing"@);
}

} // verus!

verus! {

/// The outgoing arrays are well formed, and a directed graph has both
/// incoming arrays.
pub open spec fn out_side_ok(m: CsrModel) -> bool {
    &&& all_present(m.out_indices)
    &&& all_present(m.out_indptr)
    &&& offsets_fit(slot_values(m.out_indptr), m.n, m.out_indices.len() as int)
    &&& m.directed ==> m.in_indices is Some && m.in_indptr is Some
}

/// The incoming arrays that were given are well formed.
pub open spec fn in_side_ok(m: CsrModel) -> bool {
    &&& m.in_indices matches Some(s) ==> all_present(s)
    &&& m.in_indptr matches Some(p) ==> all_present(p) && offsets_fit(
        slot_values(p),
        m.n,
        in_indices_len(m),
    )
}

/// The messages of the refusals that come after the outgoing arrays passed:
/// those for the incoming arrays, then for the weights, in that order.
pub proof fn lemma_later_refusal_messages(m: CsrModel)
    ensures
        out_side_ok(m) && (m.in_indices matches Some(s) && !all_present(s)) ==> csr_problem(m)
            == Some("in_indices must not contain nulls"@),
        out_side_ok(m) && (m.in_indices matches Some(s) ==> all_present(s)) && (
        m.in_indptr matches Some(p) && !all_present(p)) ==> csr_problem(m) == Some(
            "in_indptr must not contain nulls"@,
        ),
        ({
            let pre = out_side_ok(m) && (m.in_indices matches Some(s) ==> all_present(s)) && (
            m.in_indptr matches Some(p) && all_present(p));
            let off = slot_values(m.in_indptr->0);
            &&& pre && off.len() != m.n + 1 ==> csr_problem(m) == Some(
                "in_indptr length must be n + 1"@,
            )
            &&& pre && off.len() == m.n + 1 && off[0] != 0 ==> csr_problem(m) == Some(
                "in_indptr must start at 0"@,
            )
            &&& pre && off.len() == m.n + 1 && off[0] == 0 && off.last() != in_indices_len(m)
                ==> csr_problem(m) == Some("in_indptr last offset must equal indices length"@)
            &&& pre && off.len() == m.n + 1 && off[0] == 0 && off.last() == in_indices_len(m) && (
            exists|i: int, j: int| 0 <= i <= j < off.len() && off[i] > off[j]) ==> csr_problem(m)
                == Some("in_indptr must be monotonically increasing"@)
        }),
        out_side_ok(m) && in_side_ok(m) && (m.out_weights matches Some(w) && !all_valid(w))
            ==> csr_problem(m) == Some("out_weights must not contain nulls"@),
        out_side_ok(m) && in_side_ok(m) && (m.out_weights matches Some(w) && all_valid(w) && w.len()
            != m.out_indices.len()) ==> csr_problem(m) == Some(
            "out_weights length must match out_indices"@,
        ),
        out_side_ok(m) && in_side_ok(m) && (m.out_weights matches Some(w) ==> all_valid(w)
            && w.len() == m.out_indices.len()) && (m.in_weights matches Some(w) && !all_valid(w))
            ==> csr_problem(m) == Some("in_weights must not contain nulls"@),
        out_side_ok(m) && in_side_ok(m) && (m.out_weights matches Some(w) ==> all_valid(w)
            && w.len() == m.out_indices.len()) && (m.in_weights matches Some(w) && all_valid(w)
            && w.len() != in_indices_len(m)) ==> csr_problem(m) == Some(
            "in_weights length must match in_indices"@,
        ),
{
    reveal_strlit("in_indices");
    reveal_strlit("in_indptr");
    reveal_strlit("out_weights");
    reveal_strlit("in_weights");
    reveal_strlit(" must not contain nulls");
    reveal_strlit("in_indices must not contain nulls");
    reveal_strlit("in_indptr must not contain nulls");
    reveal_strlit("out_weights must not contain nulls");
    reveal_strlit("in_weights must not contain nulls");
    reveal_strlit(" length must be n + 1");
    reveal_strlit("in_indptr length must be n + 1");
    reveal_strlit(" must start at 0");
    reveal_strlit("in_indptr must start at 0");
    reveal_strlit(" last offset must equal indices length");
    reveal_strlit("in_indptr last offset must equal indices length");
    reveal_strlit(" must be monotonically increasing");
    reveal_strlit("in_indptr must be monotonically increasing");
    lemma_null_slots_zero_iff(m.out_indices);
    lemma_null_slots_zero_iff(m.out_indptr);
    lemma_indptr_check_exact(
        "out_indptr"@,
        slot_values(m.out_indptr),
        m.n,
        m.out_indices.len() as int,
    );
    if let Some(s) = m.in_indices {
        lemma_null_slots_zero_iff(s);
    }
    if let Some(p) = m.in_indptr {
        lemma_null_slots_zero_iff(p);
        lemma_indptr_check_exact("in_indptr"@, slot_values(p), m.n, in_indices_len(m));
    }
    if let Some(w) = m.out_weights {
        lemma_invalid_slots_zero_iff(w);
    }
    if let Some(w) = m.in_weights {
        lemma_invalid_slots_zero_iff(w);
    }
    assert(nulls_message("in_indices"@) =~= "in_indices must not contain nulls"@);
    assert(nulls_message("in_indptr"@) =~= "in_indptr must not contain nulls"@);
    assert(nulls_message("out_weights"@) =~= "out_weights must not contain nulls"@);
    assert(nulls_message("in_weights"@) =~= "in_weights must not contain nulls"@);
    assert("in_indptr"@ + " length must be n + 1"@ =~= "in_indptr length must be n + 1"@);
    assert("in_indptr"@ + " must start at 0"@ =~= "in_indptr must start at 0"@);
    assert("in_indptr"@ + " last offset must equal indices length"@
        =~= "in_indptr last offset must equal indices length"@);
    assert("in_indptr"@ + " must be monotonically increasing"@
        =~= "in_indptr must be monotonically increasing"@);
}

} // verus!
