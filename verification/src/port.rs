use vstd::prelude::*;

verus! {

/// One cell of the port graph: either a buffer that may hold a value, or a
/// passthrough that forwards every read and write to an upstream cell.
pub enum PortCell<T> {
    Buffer(Option<T>),
    Passthrough(usize),
}

/// The upstream cell a passthrough forwards to, or -1 for a buffer.
pub open spec fn pass_target<T>(c: PortCell<T>) -> int {
    match c {
        PortCell::Passthrough(j) => j as int,
        PortCell::Buffer(_) => -1,
    }
}

/// The terminus of the chain starting at `i`: follow passthrough cells for at
/// most `fuel` steps until a buffer is reached; -1 when the fuel runs out or
/// an index is out of range.
spec fn term_from<T>(cells: Seq<PortCell<T>>, i: int, fuel: nat) -> int
    decreases fuel,
{
    if 0 <= i < cells.len() {
        match cells[i] {
            PortCell::Buffer(_) => i,
            PortCell::Passthrough(j) => if fuel > 0 {
                term_from(cells, j as int, (fuel - 1) as nat)
            } else {
                -1
            },
        }
    } else {
        -1
    }
}

/// Whether the chain starting at `a` passes through `b` within `fuel` steps.
spec fn reach_from<T>(cells: Seq<PortCell<T>>, a: int, b: int, fuel: nat) -> bool
    decreases fuel,
{
    if a == b {
        true
    } else if 0 <= a < cells.len() {
        match cells[a] {
            PortCell::Buffer(_) => false,
            PortCell::Passthrough(j) => fuel > 0 && reach_from(
                cells,
                j as int,
                b,
                (fuel - 1) as nat,
            ),
        }
    } else {
        false
    }
}

/// Cell `i` is well-formed under `rank`: a passthrough points into range and
/// strictly downward in rank, so every chain terminates.
spec fn cell_ok<T>(cells: Seq<PortCell<T>>, rank: Seq<nat>, i: int) -> bool {
    match cells[i] {
        PortCell::Buffer(_) => true,
        PortCell::Passthrough(j) => (j as int) < cells.len() && rank[j as int] < rank[i],
    }
}

spec fn hub_inv<T>(cells: Seq<PortCell<T>>, rank: Seq<nat>) -> bool {
    &&& rank.len() == cells.len()
    &&& forall|i: int| 0 <= i < cells.len() ==> #[trigger] cell_ok(cells, rank, i)
}

/// The shared cells of one port graph. Every port is an index into the hub;
/// handles (send, receive, parameter ports) carry the index and all reads and
/// writes go through the hub, so one value written at a chain's buffer is
/// seen by every port whose chain ends there.
pub struct PortHub<T> {
    cells: Vec<PortCell<T>>,
    rank: Ghost<Seq<nat>>,
}

impl<T> View for PortHub<T> {
    type V = Seq<PortCell<T>>;

    closed spec fn view(&self) -> Seq<PortCell<T>> {
        self.cells@
    }
}

impl<T> PortHub<T> {
    /// The hub's passthrough graph is acyclic and in range, so every chain
    /// ends at a buffer.
    pub closed spec fn wf(self) -> bool {
        hub_inv(self.cells@, self.rank@)
    }

    /// The index of the buffer cell at the end of the chain starting at `i`.
    pub closed spec fn terminus(self, i: int) -> int {
        term_from(self.cells@, i, self.rank@[i])
    }

    /// Whether the chain starting at `a` passes through `b`.
    pub closed spec fn reaches(self, a: int, b: int) -> bool {
        reach_from(self.cells@, a, b, self.rank@[a])
    }

    /// The value currently held at the terminus of the chain starting at `i`.
    pub open spec fn stored(self, i: int) -> Option<T> {
        match self@[self.terminus(i)] {
            PortCell::Buffer(v) => v,
            PortCell::Passthrough(_) => None,
        }
    }
}

proof fn lemma_term_fuel<T>(cells: Seq<PortCell<T>>, i: int, f1: nat, f2: nat)
    requires
        term_from(cells, i, f1) != -1,
        f1 <= f2,
    ensures
        term_from(cells, i, f2) == term_from(cells, i, f1),
    decreases f1,
{
    if 0 <= i < cells.len() {
        match cells[i] {
            PortCell::Buffer(_) => {},
            PortCell::Passthrough(j) => {
                lemma_term_fuel(cells, j as int, (f1 - 1) as nat, (f2 - 1) as nat);
            },
        }
    }
}

proof fn lemma_term_defined<T>(cells: Seq<PortCell<T>>, rank: Seq<nat>, i: int)
    requires
        hub_inv(cells, rank),
        0 <= i < cells.len(),
    ensures
        0 <= term_from(cells, i, rank[i]) < cells.len(),
        cells[term_from(cells, i, rank[i])] is Buffer,
    decreases rank[i],
{
    assert(cell_ok(cells, rank, i));
    match cells[i] {
        PortCell::Buffer(_) => {},
        PortCell::Passthrough(j) => {
            lemma_term_defined(cells, rank, j as int);
            lemma_term_fuel(cells, j as int, rank[j as int], (rank[i] - 1) as nat);
        },
    }
}

proof fn lemma_reach_mono<T>(cells: Seq<PortCell<T>>, a: int, b: int, f1: nat, f2: nat)
    requires
        reach_from(cells, a, b, f1),
        f1 <= f2,
    ensures
        reach_from(cells, a, b, f2),
    decreases f1,
{
    if a != b && 0 <= a < cells.len() {
        match cells[a] {
            PortCell::Buffer(_) => {},
            PortCell::Passthrough(j) => {
                lemma_reach_mono(cells, j as int, b, (f1 - 1) as nat, (f2 - 1) as nat);
            },
        }
    }
}

proof fn lemma_reach_complete<T>(cells: Seq<PortCell<T>>, rank: Seq<nat>, a: int, b: int, f: nat)
    requires
        hub_inv(cells, rank),
        reach_from(cells, a, b, f),
    ensures
        reach_from(cells, a, b, rank[a]),
    decreases f,
{
    if a != b && 0 <= a < cells.len() {
        assert(cell_ok(cells, rank, a));
        match cells[a] {
            PortCell::Buffer(_) => {},
            PortCell::Passthrough(j) => {
                lemma_reach_complete(cells, rank, j as int, b, (f - 1) as nat);
                lemma_reach_mono(cells, j as int, b, rank[j as int], (rank[a] - 1) as nat);
            },
        }
    }
}

/// Changing the contents of a buffer cell moves no chain: the terminus of
/// every node is unchanged.
proof fn lemma_term_update_buffer<T>(
    cells: Seq<PortCell<T>>,
    t: int,
    v: Option<T>,
    i: int,
    fuel: nat,
)
    requires
        0 <= t < cells.len(),
        cells[t] is Buffer,
    ensures
        term_from(cells.update(t, PortCell::Buffer(v)), i, fuel) == term_from(cells, i, fuel),
    decreases fuel,
{
    let cells2 = cells.update(t, PortCell::Buffer(v));
    if 0 <= i < cells.len() {
        match cells[i] {
            PortCell::Buffer(_) => {},
            PortCell::Passthrough(j) => {
                if fuel > 0 {
                    lemma_term_update_buffer(cells, t, v, j as int, (fuel - 1) as nat);
                }
            },
        }
    }
}

proof fn lemma_reach_update_buffer<T>(
    cells: Seq<PortCell<T>>,
    t: int,
    v: Option<T>,
    a: int,
    b: int,
    fuel: nat,
)
    requires
        0 <= t < cells.len(),
        cells[t] is Buffer,
    ensures
        reach_from(cells.update(t, PortCell::Buffer(v)), a, b, fuel) == reach_from(
            cells,
            a,
            b,
            fuel,
        ),
    decreases fuel,
{
    if a != b && 0 <= a < cells.len() {
        match cells[a] {
            PortCell::Buffer(_) => {},
            PortCell::Passthrough(j) => {
                if fuel > 0 {
                    lemma_reach_update_buffer(cells, t, v, j as int, b, (fuel - 1) as nat);
                }
            },
        }
    }
}

/// Appending a cell moves no chain of the old cells.
proof fn lemma_term_push<T>(
    cells: Seq<PortCell<T>>,
    rank: Seq<nat>,
    x: PortCell<T>,
    i: int,
    fuel: nat,
)
    requires
        hub_inv(cells, rank),
        0 <= i < cells.len(),
    ensures
        term_from(cells.push(x), i, fuel) == term_from(cells, i, fuel),
    decreases fuel,
{
    assert(cell_ok(cells, rank, i));
    match cells[i] {
        PortCell::Buffer(_) => {},
        PortCell::Passthrough(j) => {
            if fuel > 0 {
                lemma_term_push(cells, rank, x, j as int, (fuel - 1) as nat);
            }
        },
    }
}

proof fn lemma_reach_push<T>(
    cells: Seq<PortCell<T>>,
    rank: Seq<nat>,
    x: PortCell<T>,
    a: int,
    b: int,
    fuel: nat,
)
    requires
        hub_inv(cells, rank),
        0 <= a < cells.len(),
    ensures
        reach_from(cells.push(x), a, b, fuel) == reach_from(cells, a, b, fuel),
        reach_from(cells, a, b, fuel) ==> a == b || (0 <= b < cells.len()),
    decreases fuel,
{
    if a != b {
        assert(cell_ok(cells, rank, a));
        match cells[a] {
            PortCell::Buffer(_) => {},
            PortCell::Passthrough(j) => {
                if fuel > 0 {
                    lemma_reach_push(cells, rank, x, j as int, b, (fuel - 1) as nat);
                }
            },
        }
    }
}

impl<T> PortHub<T> {
    /// Creates an empty hub with no cells.
    pub fn new() -> (r: Self)
        ensures
            r@ =~= Seq::<PortCell<T>>::empty(),
            r.wf(),
    {
        PortHub { cells: Vec::new(), rank: Ghost(Seq::empty()) }
    }

    /// The number of cells in the hub.
    pub fn len(&self) -> (r: usize)
        ensures
            r == self@.len(),
    {
        self.cells.len()
    }

    /// Adds a fresh buffer cell holding `init` and returns its index. The new
    /// cell is its own terminus, no existing chain is moved, and no existing
    /// cell reaches the new one.
    pub fn add_port(&mut self, init: Option<T>) -> (id: usize)
        requires
            old(self).wf(),
            old(self)@.len() < usize::MAX,
        ensures
            final(self).wf(),
            id == old(self)@.len(),
            final(self)@ =~= old(self)@.push(PortCell::Buffer(init)),
            final(self).terminus(id as int) == id as int,
            forall|k: int|
                0 <= k < old(self)@.len() ==> final(self).terminus(k) == old(self).terminus(k),
            forall|a: int, b: int|
                0 <= a < old(self)@.len() ==> (final(self).reaches(a, b) == old(self).reaches(
                    a,
                    b,
                )),
            forall|a: int|
                0 <= a < old(self)@.len() ==> !final(self).reaches(a, id as int),
            forall|b: int| final(self).reaches(id as int, b) <==> b == id as int,
    {
        let ghost old_cells = self.cells@;
        let ghost old_rank = self.rank@;
        let id = self.cells.len();
        self.cells.push(PortCell::Buffer(init));
        proof {
            self.rank@ = old_rank.push(0);
        }
        proof {
            let cells2 = self.cells@;
            let rank2 = self.rank@;
            assert forall|i: int| 0 <= i < cells2.len() implies #[trigger] cell_ok(
                cells2,
                rank2,
                i,
            ) by {
                if i < old_cells.len() {
                    assert(cell_ok(old_cells, old_rank, i));
                }
            }
            assert forall|k: int| 0 <= k < old_cells.len() implies final(self).terminus(k)
                == old(self).terminus(k) by {
                lemma_term_push(old_cells, old_rank, PortCell::Buffer(init), k, old_rank[k]);
            }
            assert forall|a: int, b: int| 0 <= a < old_cells.len() implies (final(self).reaches(
                a,
                b,
            ) == old(self).reaches(a, b)) by {
                lemma_reach_push(old_cells, old_rank, PortCell::Buffer(init), a, b, old_rank[a]);
            }
            assert forall|a: int| 0 <= a < old_cells.len() implies !final(self).reaches(
                a,
                id as int,
            ) by {
                lemma_reach_push(old_cells, old_rank, PortCell::Buffer(init), a, id as int,
                    old_rank[a]);
            }
        }
        id
    }

    /// The index of the buffer cell at the end of the chain starting at `p`.
    fn resolve(&self, p: usize) -> (t: usize)
        requires
            self.wf(),
            p < self@.len(),
        ensures
            t as int == self.terminus(p as int),
            t < self@.len(),
            self@[t as int] is Buffer,
    {
        let mut cur = p;
        proof {
            lemma_term_defined(self.cells@, self.rank@, p as int);
        }
        loop
            invariant
                self.wf(),
                cur < self@.len(),
                self.terminus(cur as int) == self.terminus(p as int),
                0 <= self.terminus(p as int) < self@.len(),
                self@[self.terminus(p as int)] is Buffer,
            decreases self.rank@[cur as int],
        {
            match &self.cells[cur] {
                PortCell::Buffer(_) => {
                    proof {
                        assert(self.terminus(cur as int) == cur as int);
                    }
                    return cur;
                },
                PortCell::Passthrough(j) => {
                    let next = *j;
                    proof {
                        assert(cell_ok(self.cells@, self.rank@, cur as int));
                        lemma_term_defined(self.cells@, self.rank@, next as int);
                        lemma_term_fuel(
                            self.cells@,
                            next as int,
                            self.rank@[next as int],
                            (self.rank@[cur as int] - 1) as nat,
                        );
                    }
                    cur = next;
                },
            }
        }
    }

    /// Deposits `value` into the buffer at the end of the chain starting at
    /// `p`, replacing any prior value there. No chain is moved.
    pub fn send(&mut self, p: usize, value: T)
        requires
            old(self).wf(),
            p < old(self)@.len(),
        ensures
            final(self).wf(),
            0 <= old(self).terminus(p as int) < old(self)@.len(),
            old(self)@[old(self).terminus(p as int)] is Buffer,
            final(self)@ =~= old(self)@.update(
                old(self).terminus(p as int),
                PortCell::Buffer(Some(value)),
            ),
            forall|k: int|
                0 <= k < old(self)@.len() ==> final(self).terminus(k) == old(self).terminus(k),
            forall|a: int, b: int| final(self).reaches(a, b) == old(self).reaches(a, b),
            forall|k: int|
                0 <= k < old(self)@.len() ==> final(self).stored(k) == (if old(self).terminus(k)
                    == old(self).terminus(p as int) {
                    Some(value)
                } else {
                    old(self).stored(k)
                }),
    {
        let ghost old_cells = self.cells@;
        let ghost rank = self.rank@;
        let t = self.resolve(p);
        let ghost v = Some(value);
        self.cells[t] = PortCell::Buffer(Some(value));
        proof {
            let cells2 = self.cells@;
            assert(cells2 =~= old_cells.update(t as int, PortCell::Buffer(v)));
            assert forall|i: int| 0 <= i < cells2.len() implies #[trigger] cell_ok(
                cells2,
                rank,
                i,
            ) by {
                assert(cell_ok(old_cells, rank, i));
            }
            assert forall|k: int| 0 <= k < old_cells.len() implies final(self).terminus(k)
                == old(self).terminus(k) by {
                lemma_term_update_buffer(old_cells, t as int, v, k, rank[k]);
            }
            assert forall|a: int, b: int| final(self).reaches(a, b) == old(self).reaches(
                a,
                b,
            ) by {
                lemma_reach_update_buffer(old_cells, t as int, v, a, b, rank[a]);
            }
            assert forall|k: int| 0 <= k < old_cells.len() implies final(self).stored(k) == (if old(
                self,
            ).terminus(k) == old(self).terminus(p as int) {
                Some(value)
            } else {
                old(self).stored(k)
            }) by {
                lemma_term_defined(old_cells, rank, k);
            }
        }
    }

    /// Reads the value at the end of the chain starting at `p`.
    pub fn get(&self, p: usize) -> (r: Option<&T>)
        requires
            self.wf(),
            p < self@.len(),
        ensures
            r is Some <==> self.stored(p as int) is Some,
            r matches Some(x) ==> self.stored(p as int) == Some(*x),
    {
        let t = self.resolve(p);
        match &self.cells[t] {
            PortCell::Buffer(b) => b.as_ref(),
            PortCell::Passthrough(_) => {
                proof {
                    assert(false);
                }
                None
            },
        }
    }

    /// Switches cell `p` from whatever it was to a passthrough onto `src`,
    /// discarding any value `p` held. Requires that `src`'s chain does not
    /// pass through `p`, which keeps the graph acyclic.
    pub fn connect(&mut self, p: usize, src: usize)
        requires
            old(self).wf(),
            p < old(self)@.len(),
            src < old(self)@.len(),
            !old(self).reaches(src as int, p as int),
        ensures
            final(self).wf(),
            final(self)@ =~= old(self)@.update(p as int, PortCell::Passthrough(src)),
            final(self).terminus(p as int) == old(self).terminus(src as int),
            forall|k: int|
                0 <= k < old(self)@.len() && !old(self).reaches(k, p as int)
                    ==> final(self).terminus(k) == old(self).terminus(k),
            forall|k: int, b: int|
                0 <= k < old(self)@.len() && !old(self).reaches(k, p as int)
                    ==> (final(self).reaches(k, b) == old(self).reaches(k, b)),
            forall|k: int|
                0 <= k < old(self)@.len() && old(self).reaches(k, p as int)
                    ==> final(self).terminus(k) == old(self).terminus(src as int),
            forall|b: int|
                final(self).reaches(p as int, b) <==> (b == p as int || old(self).reaches(
                    src as int,
                    b,
                )),
    {
        let hub_len = self.cells.len();
        let ghost old_cells = self.cells@;
        let ghost rank = self.rank@;
        let ghost n = old_cells.len() as int;
        let ghost c_shift = (rank[src as int] + 1) as nat;
        proof {
            assert(old_cells.len() == hub_len <= usize::MAX);
        }
        let ghost rank2 = Seq::new(
            rank.len(),
            |i: int|
                if reach_from(old_cells, i, p as int, rank[i]) {
                    (rank[i] + c_shift) as nat
                } else {
                    rank[i]
                },
        );
        self.cells[p] = PortCell::Passthrough(src);
        proof {
            self.rank@ = rank2;
        }
        proof {
            let cells2 = self.cells@;
            assert(cells2 =~= old_cells.update(p as int, PortCell::Passthrough(src)));
            assert(shifted_rank(old_cells, rank, rank2, p as int, src as int));
            lemma_connect_wf(old_cells, rank, rank2, p as int, src as int);
            assert(hub_inv(cells2, rank2));
            // Terminus of p: one step to src, whose chain is unchanged.
            lemma_term_defined(old_cells, rank, src as int);
            lemma_connect_term_unreached(old_cells, rank, p as int, src as int, src as int, rank[src as int]);
            assert(reach_from(old_cells, p as int, p as int, rank2[p as int]));
            assert(rank2[p as int] == rank[p as int] + c_shift);
            assert(term_from(cells2, p as int, rank2[p as int]) == term_from(
                cells2,
                src as int,
                (rank2[p as int] - 1) as nat,
            ));
            assert(term_from(cells2, src as int, rank[src as int]) == term_from(
                old_cells,
                src as int,
                rank[src as int],
            ));
            lemma_term_fuel(cells2, src as int, rank[src as int], (rank2[p as int] - 1) as nat);
            assert forall|k: int|
                0 <= k < n && !old(self).reaches(k, p as int) implies final(self).terminus(k)
                == old(self).terminus(k) by {
                lemma_connect_term_unreached(old_cells, rank, p as int, src as int, k, rank[k]);
                assert(rank2[k] == rank[k]);
            }
            assert forall|k: int, b: int|
                0 <= k < n && !old(self).reaches(k, p as int) implies (final(self).reaches(k, b)
                == old(self).reaches(k, b)) by {
                lemma_connect_reach_unreached(old_cells, rank, p as int, src as int, k, b, rank[k]);
                assert(rank2[k] == rank[k]);
            }
            assert forall|k: int|
                0 <= k < n && old(self).reaches(k, p as int) implies final(self).terminus(k)
                == old(self).terminus(src as int) by {
                lemma_connect_term_reached(
                    old_cells,
                    rank,
                    rank2,
                    p as int,
                    src as int,
                    k,
                    rank[k],
                );
            }
            assert forall|b: int|
                final(self).reaches(p as int, b) <==> (b == p as int || old(self).reaches(
                    src as int,
                    b,
                )) by {
                let f_p = rank2[p as int];
                assert(reach_from(old_cells, p as int, p as int, rank[p as int]));
                assert(f_p == rank[p as int] + c_shift);
                if b != p as int {
                    // One step to src, whose chain is unchanged by the rewiring.
                    assert(reach_from(cells2, p as int, b, f_p) <==> reach_from(
                        cells2,
                        src as int,
                        b,
                        (f_p - 1) as nat,
                    ));
                    lemma_connect_reach_unreached(
                        old_cells,
                        rank,
                        p as int,
                        src as int,
                        src as int,
                        b,
                        (f_p - 1) as nat,
                    );
                    if reach_from(old_cells, src as int, b, (f_p - 1) as nat) {
                        lemma_reach_complete(old_cells, rank, src as int, b, (f_p - 1) as nat);
                    }
                    if reach_from(old_cells, src as int, b, rank[src as int]) {
                        lemma_reach_mono(
                            old_cells,
                            src as int,
                            b,
                            rank[src as int],
                            (f_p - 1) as nat,
                        );
                    }
                }
            }
        }
    }
}

/// Whether `rank2` is the ranking for the graph after `connect(p, src)`:
/// every node whose chain passed through `p` is shifted up by more than the
/// rank of `src`, everything else keeps its rank.
spec fn shifted_rank<T>(cells: Seq<PortCell<T>>, rank: Seq<nat>, rank2: Seq<nat>, p: int, src: int) -> bool {
    &&& rank2.len() == rank.len()
    &&& forall|k: int|
        0 <= k < rank.len() ==> rank2[k] == (if reach_from(cells, k, p, rank[k]) {
            (rank[k] + rank[src] + 1) as nat
        } else {
            rank[k]
        })
}

/// After `connect(p, src)` the shifted ranking is still strictly decreasing
/// along every passthrough edge.
proof fn lemma_connect_wf<T>(
    cells: Seq<PortCell<T>>,
    rank: Seq<nat>,
    rank2: Seq<nat>,
    p: int,
    src: int,
)
    requires
        cells.len() <= usize::MAX,
        hub_inv(cells, rank),
        0 <= p < cells.len(),
        0 <= src < cells.len(),
        !reach_from(cells, src, p, rank[src]),
        shifted_rank(cells, rank, rank2, p, src),
    ensures
        hub_inv(cells.update(p, PortCell::Passthrough(src as usize)), rank2),
{
    let cells2 = cells.update(p, PortCell::Passthrough(src as usize));
    let c_shift = (rank[src] + 1) as nat;
    assert((src as usize) as int == src);
    assert forall|i: int| 0 <= i < cells2.len() implies #[trigger] cell_ok(cells2, rank2, i) by {
        if i == p {
            assert(reach_from(cells, p, p, rank[p]));
            assert(rank2[p] == rank[p] + c_shift);
            assert(rank2[src] == rank[src]);
        } else {
            assert(cell_ok(cells, rank, i));
            match cells[i] {
                PortCell::Buffer(_) => {},
                PortCell::Passthrough(j) => {
                    let j = j as int;
                    if reach_from(cells, j, p, rank[j]) {
                        // Then i reaches p through j as well.
                        lemma_reach_mono(cells, j, p, rank[j], (rank[i] - 1) as nat);
                        assert(reach_from(cells, i, p, rank[i]));
                        assert(rank2[i] == rank[i] + c_shift);
                        assert(rank2[j] == rank[j] + c_shift);
                    } else {
                        assert(rank2[j] == rank[j]);
                        if reach_from(cells, i, p, rank[i]) {
                            // The chain from i to p continues through j.
                            assert(reach_from(cells, j, p, (rank[i] - 1) as nat));
                            lemma_reach_complete(cells, rank, j, p, (rank[i] - 1) as nat);
                            assert(false);
                        }
                    }
                },
            }
        }
    }
}

/// A node whose chain avoids `p` keeps its chain after `p` is rewired.
proof fn lemma_connect_term_unreached<T>(
    cells: Seq<PortCell<T>>,
    rank: Seq<nat>,
    p: int,
    src: int,
    i: int,
    fuel: nat,
)
    requires
        cells.len() <= usize::MAX,
        hub_inv(cells, rank),
        0 <= p < cells.len(),
        !reach_from(cells, i, p, rank[i]),
    ensures
        term_from(cells.update(p, PortCell::Passthrough(src as usize)), i, fuel) == term_from(
            cells,
            i,
            fuel,
        ),
    decreases fuel,
{
    let cells2 = cells.update(p, PortCell::Passthrough(src as usize));
    assert(i != p) by {
        assert(reach_from(cells, p, p, rank[p]));
    }
    if 0 <= i < cells.len() {
        assert(cell_ok(cells, rank, i));
        match cells[i] {
            PortCell::Buffer(_) => {},
            PortCell::Passthrough(j) => {
                let j = j as int;
                if fuel > 0 {
                    assert(!reach_from(cells, j, p, rank[j])) by {
                        if reach_from(cells, j, p, rank[j]) {
                            lemma_reach_mono(cells, j, p, rank[j], (rank[i] - 1) as nat);
                            assert(reach_from(cells, i, p, rank[i]));
                        }
                    }
                    lemma_connect_term_unreached(cells, rank, p, src, j, (fuel - 1) as nat);
                }
            },
        }
    }
}

/// A node whose chain avoids `p` keeps its reach relation after `p` is
/// rewired.
proof fn lemma_connect_reach_unreached<T>(
    cells: Seq<PortCell<T>>,
    rank: Seq<nat>,
    p: int,
    src: int,
    a: int,
    b: int,
    fuel: nat,
)
    requires
        cells.len() <= usize::MAX,
        hub_inv(cells, rank),
        0 <= p < cells.len(),
        !reach_from(cells, a, p, rank[a]),
    ensures
        reach_from(cells.update(p, PortCell::Passthrough(src as usize)), a, b, fuel) == reach_from(
            cells,
            a,
            b,
            fuel,
        ),
    decreases fuel,
{
    let cells2 = cells.update(p, PortCell::Passthrough(src as usize));
    assert(a != p) by {
        assert(reach_from(cells, p, p, rank[p]));
    }
    if a != b && 0 <= a < cells.len() {
        assert(cell_ok(cells, rank, a));
        match cells[a] {
            PortCell::Buffer(_) => {},
            PortCell::Passthrough(j) => {
                let j = j as int;
                if fuel > 0 {
                    assert(!reach_from(cells, j, p, rank[j])) by {
                        if reach_from(cells, j, p, rank[j]) {
                            lemma_reach_mono(cells, j, p, rank[j], (rank[a] - 1) as nat);
                            assert(reach_from(cells, a, p, rank[a]));
                        }
                    }
                    lemma_connect_reach_unreached(cells, rank, p, src, j, b, (fuel - 1) as nat);
                }
            },
        }
    }
}

/// A node whose old chain passed through `p` now ends where the rewired `p`
/// ends.
proof fn lemma_connect_term_reached<T>(
    cells: Seq<PortCell<T>>,
    rank: Seq<nat>,
    rank2: Seq<nat>,
    p: int,
    src: int,
    i: int,
    fuel: nat,
)
    requires
        cells.len() <= usize::MAX,
        hub_inv(cells, rank),
        0 <= p < cells.len(),
        0 <= src < cells.len(),
        shifted_rank(cells, rank, rank2, p, src),
        hub_inv(cells.update(p, PortCell::Passthrough(src as usize)), rank2),
        reach_from(cells, i, p, fuel),
    ensures
        term_from(cells.update(p, PortCell::Passthrough(src as usize)), i, rank2[i]) == term_from(
            cells.update(p, PortCell::Passthrough(src as usize)),
            p,
            rank2[p],
        ),
    decreases fuel,
{
    let cells2 = cells.update(p, PortCell::Passthrough(src as usize));
    if i == p {
    } else {
        assert(0 <= i < cells.len());
        assert(cell_ok(cells, rank, i));
        match cells[i] {
            PortCell::Buffer(_) => {
                assert(false);
            },
            PortCell::Passthrough(j) => {
                let j = j as int;
                assert(fuel > 0 && reach_from(cells, j, p, (fuel - 1) as nat));
                lemma_connect_term_reached(cells, rank, rank2, p, src, j, (fuel - 1) as nat);
                // One unfolding step in the new graph, then align the fuel.
                assert(cell_ok(cells2, rank2, i));
                assert(rank2[j] < rank2[i]);
                lemma_term_defined(cells2, rank2, j);
                assert(term_from(cells2, i, rank2[i]) == term_from(
                    cells2,
                    j,
                    (rank2[i] - 1) as nat,
                ));
                lemma_term_fuel(cells2, j, rank2[j], (rank2[i] - 1) as nat);
            },
        }
    }
}

impl<T> PortHub<T> {
    /// Every chain trivially passes through its own start.
    pub proof fn lemma_reaches_self(self, a: int)
        ensures
            self.reaches(a, a),
    {
    }

    /// A buffer cell's chain is just itself.
    pub proof fn lemma_reaches_buffer(self, a: int, b: int)
        requires
            0 <= a < self@.len(),
            self@[a] is Buffer,
            a != b,
        ensures
            !self.reaches(a, b),
    {
    }

    /// A passthrough cell reaches exactly itself and what its source reaches.
    pub proof fn lemma_reaches_step(self, a: int, b: int)
        requires
            self.wf(),
            0 <= a < self@.len(),
            self@[a] is Passthrough,
            a != b,
        ensures
            self.reaches(a, b) <==> self.reaches(pass_target(self@[a]), b),
    {
        let j = pass_target(self@[a]);
        assert(cell_ok(self.cells@, self.rank@, a));
        if reach_from(self.cells@, a, b, self.rank@[a]) {
            assert(reach_from(self.cells@, j, b, (self.rank@[a] - 1) as nat));
            lemma_reach_complete(self.cells@, self.rank@, j, b, (self.rank@[a] - 1) as nat);
        }
        if reach_from(self.cells@, j, b, self.rank@[j]) {
            lemma_reach_mono(self.cells@, j, b, self.rank@[j], (self.rank@[a] - 1) as nat);
        }
    }

    /// A buffer cell is its own terminus.
    pub proof fn lemma_buffer_terminus(self, a: int)
        requires
            0 <= a < self@.len(),
            self@[a] is Buffer,
        ensures
            self.terminus(a) == a,
    {
    }

    /// A passthrough cell's terminus is its source's terminus.
    pub proof fn lemma_edge_terminus(self, a: int)
        requires
            self.wf(),
            0 <= a < self@.len(),
            self@[a] is Passthrough,
        ensures
            self.terminus(a) == self.terminus(pass_target(self@[a])),
    {
        let j = pass_target(self@[a]);
        assert(cell_ok(self.cells@, self.rank@, a));
        lemma_term_defined(self.cells@, self.rank@, j);
        lemma_term_fuel(self.cells@, j, self.rank@[j], (self.rank@[a] - 1) as nat);
    }

    /// In a well-formed hub every chain ends at a buffer cell in range.
    pub proof fn lemma_terminus_in_range(self, a: int)
        requires
            self.wf(),
            0 <= a < self@.len(),
        ensures
            0 <= self.terminus(a) < self@.len(),
            self@[self.terminus(a)] is Buffer,
    {
        lemma_term_defined(self.cells@, self.rank@, a);
    }
}

} // verus!

verus! {

/// A bare handle onto one cell of a hub. Send and receive facades expose
/// their handle so that either side of a connection can be named.
pub struct Port<T> {
    id: usize,
    marker: core::marker::PhantomData<T>,
}

impl<T> Port<T> {
    /// The index of the cell this handle names.
    pub closed spec fn port_id(self) -> int {
        self.id as int
    }
}

impl<T> Clone for Port<T> {
    fn clone(&self) -> (r: Self)
        ensures
            r.port_id() == self.port_id(),
    {
        Port { id: self.id, marker: core::marker::PhantomData }
    }
}

/// The sending facade over a port cell: producers deposit values here and
/// may read back what they last sent.
pub struct SendPort<T> {
    id: usize,
    marker: core::marker::PhantomData<T>,
}

/// The receiving facade over a port cell, plus a local snapshot that is only
/// refreshed by an explicit `update`, so a consumer sees a stable value for a
/// whole cycle while producers keep publishing.
pub struct ReceivePort<T> {
    id: usize,
    buffer: Option<T>,
}

impl<T> SendPort<T> {
    /// The index of the underlying cell.
    pub closed spec fn port_id(self) -> int {
        self.id as int
    }

    /// Creates a fresh, empty send port in `hub`.
    pub fn new(hub: &mut PortHub<T>) -> (r: Self)
        requires
            old(hub).wf(),
            old(hub)@.len() < usize::MAX,
        ensures
            final(hub).wf(),
            r.port_id() == old(hub)@.len(),
            final(hub)@ =~= old(hub)@.push(PortCell::Buffer(None)),
            final(hub).terminus(r.port_id()) == r.port_id(),
            forall|k: int|
                0 <= k < old(hub)@.len() ==> final(hub).terminus(k) == old(hub).terminus(k),
            forall|a: int, b: int|
                0 <= a < old(hub)@.len() ==> (final(hub).reaches(a, b) == old(hub).reaches(a, b)),
            forall|a: int| 0 <= a < old(hub)@.len() ==> !final(hub).reaches(a, r.port_id()),
            forall|b: int| final(hub).reaches(r.port_id(), b) <==> b == r.port_id(),
    {
        let id = hub.add_port(None);
        SendPort { id, marker: core::marker::PhantomData }
    }

    /// The bare handle of this port.
    pub fn port(&self) -> (r: Port<T>)
        ensures
            r.port_id() == self.port_id(),
    {
        Port { id: self.id, marker: core::marker::PhantomData }
    }

    /// Sends `data` to every port whose chain ends at this port's terminus.
    pub fn send(&self, hub: &mut PortHub<T>, data: T)
        requires
            old(hub).wf(),
            0 <= self.port_id() < old(hub)@.len(),
        ensures
            final(hub).wf(),
            0 <= old(hub).terminus(self.port_id()) < old(hub)@.len(),
            old(hub)@[old(hub).terminus(self.port_id())] is Buffer,
            final(hub)@ =~= old(hub)@.update(
                old(hub).terminus(self.port_id()),
                PortCell::Buffer(Some(data)),
            ),
            forall|k: int|
                0 <= k < old(hub)@.len() ==> final(hub).terminus(k) == old(hub).terminus(k),
            forall|a: int, b: int| final(hub).reaches(a, b) == old(hub).reaches(a, b),
            forall|k: int|
                0 <= k < old(hub)@.len() ==> final(hub).stored(k) == (if old(hub).terminus(k)
                    == old(hub).terminus(self.port_id()) {
                    Some(data)
                } else {
                    old(hub).stored(k)
                }),
    {
        hub.send(self.id, data);
    }

    /// Connects this port to `source`: every read and write is forwarded
    /// upstream from now on.
    pub fn connect_to_source(&self, hub: &mut PortHub<T>, source: &Port<T>)
        requires
            old(hub).wf(),
            0 <= self.port_id() < old(hub)@.len(),
            0 <= source.port_id() < old(hub)@.len(),
            !old(hub).reaches(source.port_id(), self.port_id()),
        ensures
            final(hub).wf(),
            final(hub)@ =~= old(hub)@.update(
                self.port_id(),
                PortCell::Passthrough(source.port_id() as usize),
            ),
            final(hub).terminus(self.port_id()) == old(hub).terminus(source.port_id()),
            forall|k: int|
                0 <= k < old(hub)@.len() && !old(hub).reaches(k, self.port_id())
                    ==> final(hub).terminus(k) == old(hub).terminus(k),
            forall|k: int, b: int|
                0 <= k < old(hub)@.len() && !old(hub).reaches(k, self.port_id())
                    ==> (final(hub).reaches(k, b) == old(hub).reaches(k, b)),
            forall|k: int|
                0 <= k < old(hub)@.len() && old(hub).reaches(k, self.port_id())
                    ==> final(hub).terminus(k) == old(hub).terminus(source.port_id()),
            forall|b: int|
                final(hub).reaches(self.port_id(), b) <==> (b == self.port_id() || old(
                    hub,
                ).reaches(source.port_id(), b)),
    {
        hub.connect(self.id, source.id);
    }

    /// Connects `target` to this port, so this port feeds it.
    pub fn connect_as_source(&self, hub: &mut PortHub<T>, target: &Port<T>)
        requires
            old(hub).wf(),
            0 <= self.port_id() < old(hub)@.len(),
            0 <= target.port_id() < old(hub)@.len(),
            !old(hub).reaches(self.port_id(), target.port_id()),
        ensures
            final(hub).wf(),
            final(hub)@ =~= old(hub)@.update(
                target.port_id(),
                PortCell::Passthrough(self.port_id() as usize),
            ),
            final(hub).terminus(target.port_id()) == old(hub).terminus(self.port_id()),
            forall|k: int|
                0 <= k < old(hub)@.len() && !old(hub).reaches(k, target.port_id())
                    ==> final(hub).terminus(k) == old(hub).terminus(k),
            forall|k: int, b: int|
                0 <= k < old(hub)@.len() && !old(hub).reaches(k, target.port_id())
                    ==> (final(hub).reaches(k, b) == old(hub).reaches(k, b)),
            forall|k: int|
                0 <= k < old(hub)@.len() && old(hub).reaches(k, target.port_id())
                    ==> final(hub).terminus(k) == old(hub).terminus(self.port_id()),
            forall|b: int|
                final(hub).reaches(target.port_id(), b) <==> (b == target.port_id() || old(
                    hub,
                ).reaches(self.port_id(), b)),
    {
        hub.connect(target.id, self.id);
    }

    /// Reads back the value at this port's terminus: the last value sent on
    /// the chain, if any.
    pub fn get<'a>(&self, hub: &'a PortHub<T>) -> (r: Option<&'a T>)
        requires
            hub.wf(),
            0 <= self.port_id() < hub@.len(),
        ensures
            r is Some <==> hub.stored(self.port_id()) is Some,
            r matches Some(x) ==> hub.stored(self.port_id()) == Some(*x),
    {
        hub.get(self.id)
    }
}

impl<T: Clone + Default> SendPort<T> {
    /// Reads back the value at this port's terminus, or the payload type's
    /// default when no value was sent yet.
    pub fn get_or_default(&self, hub: &PortHub<T>) -> (r: T)
        requires
            hub.wf(),
            0 <= self.port_id() < hub@.len(),
        ensures
            hub.stored(self.port_id()) matches Some(v) ==> cloned(v, r),
            hub.stored(self.port_id()) is None ==> call_ensures(T::default, (), r),
    {
        match hub.get(self.id) {
            Some(v) => v.clone(),
            None => T::default(),
        }
    }
}

impl<T> ReceivePort<T> {
    /// The index of the underlying cell.
    pub closed spec fn port_id(self) -> int {
        self.id as int
    }

    /// The local snapshot taken by the last `update`.
    pub closed spec fn snapshot(self) -> Option<T> {
        self.buffer
    }

    /// Creates a fresh, empty receive port in `hub`.
    pub fn new(hub: &mut PortHub<T>) -> (r: Self)
        requires
            old(hub).wf(),
            old(hub)@.len() < usize::MAX,
        ensures
            final(hub).wf(),
            r.port_id() == old(hub)@.len(),
            r.snapshot() is None,
            final(hub)@ =~= old(hub)@.push(PortCell::Buffer(None)),
            final(hub).terminus(r.port_id()) == r.port_id(),
            forall|k: int|
                0 <= k < old(hub)@.len() ==> final(hub).terminus(k) == old(hub).terminus(k),
            forall|a: int, b: int|
                0 <= a < old(hub)@.len() ==> (final(hub).reaches(a, b) == old(hub).reaches(a, b)),
            forall|a: int| 0 <= a < old(hub)@.len() ==> !final(hub).reaches(a, r.port_id()),
            forall|b: int| final(hub).reaches(r.port_id(), b) <==> b == r.port_id(),
    {
        let id = hub.add_port(None);
        ReceivePort { id, buffer: None }
    }

    /// The bare handle of this port.
    pub fn port(&self) -> (r: Port<T>)
        ensures
            r.port_id() == self.port_id(),
    {
        Port { id: self.id, marker: core::marker::PhantomData }
    }

    /// Connects this port to `source`: updates read the source's chain.
    pub fn connect_to_source(&self, hub: &mut PortHub<T>, source: &Port<T>)
        requires
            old(hub).wf(),
            0 <= self.port_id() < old(hub)@.len(),
            0 <= source.port_id() < old(hub)@.len(),
            !old(hub).reaches(source.port_id(), self.port_id()),
        ensures
            final(hub).wf(),
            final(hub)@ =~= old(hub)@.update(
                self.port_id(),
                PortCell::Passthrough(source.port_id() as usize),
            ),
            final(hub).terminus(self.port_id()) == old(hub).terminus(source.port_id()),
            forall|k: int|
                0 <= k < old(hub)@.len() && !old(hub).reaches(k, self.port_id())
                    ==> final(hub).terminus(k) == old(hub).terminus(k),
            forall|k: int, b: int|
                0 <= k < old(hub)@.len() && !old(hub).reaches(k, self.port_id())
                    ==> (final(hub).reaches(k, b) == old(hub).reaches(k, b)),
            forall|k: int|
                0 <= k < old(hub)@.len() && old(hub).reaches(k, self.port_id())
                    ==> final(hub).terminus(k) == old(hub).terminus(source.port_id()),
            forall|b: int|
                final(hub).reaches(self.port_id(), b) <==> (b == self.port_id() || old(
                    hub,
                ).reaches(source.port_id(), b)),
    {
        hub.connect(self.id, source.id);
    }

    /// Connects `target` to this port, so this port feeds it.
    pub fn connect_as_source(&self, hub: &mut PortHub<T>, target: &Port<T>)
        requires
            old(hub).wf(),
            0 <= self.port_id() < old(hub)@.len(),
            0 <= target.port_id() < old(hub)@.len(),
            !old(hub).reaches(self.port_id(), target.port_id()),
        ensures
            final(hub).wf(),
            final(hub)@ =~= old(hub)@.update(
                target.port_id(),
                PortCell::Passthrough(self.port_id() as usize),
            ),
            final(hub).terminus(target.port_id()) == old(hub).terminus(self.port_id()),
            forall|k: int|
                0 <= k < old(hub)@.len() && !old(hub).reaches(k, target.port_id())
                    ==> final(hub).terminus(k) == old(hub).terminus(k),
            forall|k: int, b: int|
                0 <= k < old(hub)@.len() && !old(hub).reaches(k, target.port_id())
                    ==> (final(hub).reaches(k, b) == old(hub).reaches(k, b)),
            forall|k: int|
                0 <= k < old(hub)@.len() && old(hub).reaches(k, target.port_id())
                    ==> final(hub).terminus(k) == old(hub).terminus(self.port_id()),
            forall|b: int|
                final(hub).reaches(target.port_id(), b) <==> (b == target.port_id() || old(
                    hub,
                ).reaches(self.port_id(), b)),
    {
        hub.connect(target.id, self.id);
    }

    /// Reads the last received snapshot; empty until the first `update`
    /// after a value arrived.
    pub fn get(&self) -> (r: Option<&T>)
        ensures
            r is Some <==> self.snapshot() is Some,
            r matches Some(x) ==> self.snapshot() == Some(*x),
    {
        self.buffer.as_ref()
    }
}

impl<T: Clone + Default> ReceivePort<T> {
    /// Reads the value at the terminus directly, bypassing the snapshot, or
    /// the payload type's default when the terminus is empty.
    pub fn get_or_default(&self, hub: &PortHub<T>) -> (r: T)
        requires
            hub.wf(),
            0 <= self.port_id() < hub@.len(),
        ensures
            hub.stored(self.port_id()) matches Some(v) ==> cloned(v, r),
            hub.stored(self.port_id()) is None ==> call_ensures(T::default, (), r),
    {
        match hub.get(self.id) {
            Some(v) => v.clone(),
            None => T::default(),
        }
    }
}

impl<T: Clone> ReceivePort<T> {
    /// Copies the value at the terminus into the local snapshot.
    pub fn update(&mut self, hub: &PortHub<T>)
        requires
            hub.wf(),
            0 <= old(self).port_id() < hub@.len(),
        ensures
            final(self).port_id() == old(self).port_id(),
            final(self).snapshot() is Some <==> hub.stored(old(self).port_id()) is Some,
            final(self).snapshot() matches Some(b) ==> cloned(
                hub.stored(old(self).port_id()).unwrap(),
                b,
            ),
    {
        self.buffer = match hub.get(self.id) {
            Some(v) => Some(v.clone()),
            None => None,
        };
    }
}

impl<T: Copy> ReceivePort<T> {
    /// Copies the value at the terminus into the local snapshot; for `Copy`
    /// payloads the snapshot equals the stored value exactly.
    pub fn update_copied(&mut self, hub: &PortHub<T>)
        requires
            hub.wf(),
            0 <= old(self).port_id() < hub@.len(),
        ensures
            final(self).port_id() == old(self).port_id(),
            final(self).snapshot() == hub.stored(old(self).port_id()),
    {
        self.buffer = match hub.get(self.id) {
            Some(v) => Some(*v),
            None => None,
        };
    }
}

} // verus!

verus! {

/// A receive-shaped port whose buffer always holds a real value: it starts
/// from an explicit initial value and falls back to the payload's default
/// when the terminus is empty. Meant for knobs tuned externally at runtime.
pub struct ParameterPort<T> {
    id: usize,
    buffer: T,
}

impl<T: Clone> ParameterPort<T> {
    /// The index of the underlying cell.
    pub closed spec fn port_id(self) -> int {
        self.id as int
    }

    /// The local snapshot taken by the last `update`, or the initial value.
    pub closed spec fn snapshot(self) -> T {
        self.buffer
    }

    /// Creates a parameter port in `hub` whose cell and snapshot both start
    /// out holding `value`.
    pub fn with_value(hub: &mut PortHub<T>, value: T) -> (r: Self)
        requires
            old(hub).wf(),
            old(hub)@.len() < usize::MAX,
        ensures
            final(hub).wf(),
            r.port_id() == old(hub)@.len(),
            r.snapshot() == value,
            cloned(r.snapshot(), final(hub)@.last()->Buffer_0.unwrap()),
            final(hub)@.len() == old(hub)@.len() + 1,
            final(hub)@.last() is Buffer,
            final(hub)@.last()->Buffer_0 is Some,
            forall|k: int| 0 <= k < old(hub)@.len() ==> final(hub)@[k] == old(hub)@[k],
            final(hub).terminus(r.port_id()) == r.port_id(),
            final(hub).stored(r.port_id()) is Some,
            cloned(r.snapshot(), final(hub).stored(r.port_id()).unwrap()),
            forall|k: int|
                0 <= k < old(hub)@.len() ==> final(hub).terminus(k) == old(hub).terminus(k),
            forall|a: int, b: int|
                0 <= a < old(hub)@.len() ==> (final(hub).reaches(a, b) == old(hub).reaches(a, b)),
            forall|a: int| 0 <= a < old(hub)@.len() ==> !final(hub).reaches(a, r.port_id()),
            forall|b: int| final(hub).reaches(r.port_id(), b) <==> b == r.port_id(),
    {
        let copy = value.clone();
        let id = hub.add_port(Some(copy));
        let r = ParameterPort { id, buffer: value };
        proof {
            assert(final(hub)@.last() == PortCell::Buffer(Some(final(hub)@.last()->Buffer_0.unwrap())));
        }
        r
    }

    /// The bare handle of this port.
    pub fn port(&self) -> (r: Port<T>)
        ensures
            r.port_id() == self.port_id(),
    {
        Port { id: self.id, marker: core::marker::PhantomData }
    }

    /// Overwrites the parameter's value at the terminus.
    pub fn set(&self, hub: &mut PortHub<T>, data: T)
        requires
            old(hub).wf(),
            0 <= self.port_id() < old(hub)@.len(),
        ensures
            final(hub).wf(),
            0 <= old(hub).terminus(self.port_id()) < old(hub)@.len(),
            old(hub)@[old(hub).terminus(self.port_id())] is Buffer,
            final(hub)@ =~= old(hub)@.update(
                old(hub).terminus(self.port_id()),
                PortCell::Buffer(Some(data)),
            ),
            forall|k: int|
                0 <= k < old(hub)@.len() ==> final(hub).terminus(k) == old(hub).terminus(k),
            forall|a: int, b: int| final(hub).reaches(a, b) == old(hub).reaches(a, b),
            forall|k: int|
                0 <= k < old(hub)@.len() ==> final(hub).stored(k) == (if old(hub).terminus(k)
                    == old(hub).terminus(self.port_id()) {
                    Some(data)
                } else {
                    old(hub).stored(k)
                }),
    {
        hub.send(self.id, data);
    }

    /// Reads the current parameter value from the local snapshot.
    pub fn get(&self) -> (r: &T)
        ensures
            *r == self.snapshot(),
    {
        &self.buffer
    }
}

impl<T: Clone + Default> ParameterPort<T> {
    /// Copies the value at the terminus into the local snapshot, falling
    /// back to the payload type's default when the terminus is empty.
    pub fn update(&mut self, hub: &PortHub<T>)
        requires
            hub.wf(),
            0 <= old(self).port_id() < hub@.len(),
        ensures
            final(self).port_id() == old(self).port_id(),
            hub.stored(old(self).port_id()) matches Some(v) ==> cloned(v, final(self).snapshot()),
            hub.stored(old(self).port_id()) is None ==> call_ensures(
                T::default,
                (),
                final(self).snapshot(),
            ),
    {
        self.buffer = match hub.get(self.id) {
            Some(v) => v.clone(),
            None => T::default(),
        };
    }
}

impl<T: Copy + Default> ParameterPort<T> {
    /// Copies the value at the terminus into the local snapshot; for `Copy`
    /// payloads the snapshot equals the stored value exactly.
    pub fn update_copied(&mut self, hub: &PortHub<T>)
        requires
            hub.wf(),
            0 <= old(self).port_id() < hub@.len(),
        ensures
            final(self).port_id() == old(self).port_id(),
            hub.stored(old(self).port_id()) matches Some(v) ==> final(self).snapshot() == v,
            hub.stored(old(self).port_id()) is None ==> call_ensures(
                T::default,
                (),
                final(self).snapshot(),
            ),
    {
        self.buffer = match hub.get(self.id) {
            Some(v) => *v,
            None => T::default(),
        };
    }
}

/// Exposes a graph-internal send endpoint to callers outside the graph, who
/// may only read from it.
pub struct OutputPort<T> {
    id: usize,
    marker: core::marker::PhantomData<T>,
}

impl<T> OutputPort<T> {
    /// The index of the underlying cell.
    pub closed spec fn port_id(self) -> int {
        self.id as int
    }

    /// Reads the value at the source's terminus.
    pub fn get<'a>(&self, hub: &'a PortHub<T>) -> (r: Option<&'a T>)
        requires
            hub.wf(),
            0 <= self.port_id() < hub@.len(),
        ensures
            r is Some <==> hub.stored(self.port_id()) is Some,
            r matches Some(x) ==> hub.stored(self.port_id()) == Some(*x),
    {
        hub.get(self.id)
    }
}

impl<T: Clone + Default> OutputPort<T> {
    /// Reads the value at the source's terminus, or the payload type's
    /// default when the terminus is empty.
    pub fn get_or_default(&self, hub: &PortHub<T>) -> (r: T)
        requires
            hub.wf(),
            0 <= self.port_id() < hub@.len(),
        ensures
            hub.stored(self.port_id()) matches Some(v) ==> cloned(v, r),
            hub.stored(self.port_id()) is None ==> call_ensures(T::default, (), r),
    {
        match hub.get(self.id) {
            Some(v) => v.clone(),
            None => T::default(),
        }
    }
}

impl<T> OutputPort<T> {
    /// Builds a read-only view onto a send port's cell.
    pub fn from_send_port(port: &SendPort<T>) -> (r: Self)
        ensures
            r.port_id() == port.port_id(),
    {
        OutputPort { id: port.port().id, marker: core::marker::PhantomData }
    }
}

/// Exposes a graph-internal receive endpoint to callers outside the graph,
/// who may only write to it.
pub struct InputPort<T> {
    id: usize,
    marker: core::marker::PhantomData<T>,
}

impl<T> InputPort<T> {
    /// The index of the underlying cell.
    pub closed spec fn port_id(self) -> int {
        self.id as int
    }

    /// Writes `data` into the target's terminus.
    pub fn set(&mut self, hub: &mut PortHub<T>, data: T)
        requires
            old(hub).wf(),
            0 <= old(self).port_id() < old(hub)@.len(),
        ensures
            final(self).port_id() == old(self).port_id(),
            final(hub).wf(),
            0 <= old(hub).terminus(old(self).port_id()) < old(hub)@.len(),
            old(hub)@[old(hub).terminus(old(self).port_id())] is Buffer,
            final(hub)@ =~= old(hub)@.update(
                old(hub).terminus(old(self).port_id()),
                PortCell::Buffer(Some(data)),
            ),
            forall|k: int|
                0 <= k < old(hub)@.len() ==> final(hub).terminus(k) == old(hub).terminus(k),
            forall|a: int, b: int| final(hub).reaches(a, b) == old(hub).reaches(a, b),
            forall|k: int|
                0 <= k < old(hub)@.len() ==> final(hub).stored(k) == (if old(hub).terminus(k)
                    == old(hub).terminus(old(self).port_id()) {
                    Some(data)
                } else {
                    old(hub).stored(k)
                }),
    {
        hub.send(self.id, data);
    }
}

impl<T> InputPort<T> {
    /// Builds a write-only view onto a receive port's cell.
    pub fn from_receive_port(port: &ReceivePort<T>) -> (r: Self)
        ensures
            r.port_id() == port.port_id(),
    {
        InputPort { id: port.port().id, marker: core::marker::PhantomData }
    }
}

} // verus!
