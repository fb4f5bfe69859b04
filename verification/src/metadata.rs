//! The packages of a project and what they depend on.

use vstd::prelude::*;
use vstd::string::*;

verus! {

/// A package of the project or one that the project depends on.
#[derive(Clone, Debug, PartialEq, Eq)]
pub struct Package {
    /// What other packages know the package by.
    pub id: String,
    pub name: String,
    pub version: String,
    /// Where the manifest of the package lies.
    pub manifest_path: String,
}

/// The resolved dependencies of one package.
#[derive(Clone, Debug, PartialEq, Eq)]
pub struct Node {
    /// The package that depends.
    pub id: String,
    /// The packages that it depends on directly.
    pub dependencies: Vec<String>,
}

/// What the metadata query tells of a project.
#[derive(Clone, Debug, PartialEq, Eq)]
pub struct Metadata {
    /// Every package of the dependency graph, the project's own among them.
    pub packages: Vec<Package>,
    /// The ids of the project's own packages.
    pub workspace_members: Vec<String>,
    /// The dependency graph, one node for each package that depends.
    pub nodes: Vec<Node>,
}

/// A package as mathematical value.
pub struct PackageView {
    pub id: Seq<char>,
    pub name: Seq<char>,
    pub version: Seq<char>,
    pub manifest_path: Seq<char>,
}

/// A node as mathematical value.
pub struct NodeView {
    pub id: Seq<char>,
    pub dependencies: Seq<Seq<char>>,
}

/// The metadata as mathematical value.
pub struct MetadataView {
    pub packages: Seq<PackageView>,
    pub workspace_members: Seq<Seq<char>>,
    pub nodes: Seq<NodeView>,
}

impl View for Package {
    type V = PackageView;

    open spec fn view(&self) -> PackageView {
        PackageView {
            id: self.id@,
            name: self.name@,
            version: self.version@,
            manifest_path: self.manifest_path@,
        }
    }
}

impl View for Node {
    type V = NodeView;

    open spec fn view(&self) -> NodeView {
        NodeView { id: self.id@, dependencies: self.dependencies.deep_view() }
    }
}

impl View for Metadata {
    type V = MetadataView;

    open spec fn view(&self) -> MetadataView {
        MetadataView {
            packages: Seq::new(self.packages@.len(), |i: int| self.packages@[i]@),
            workspace_members: self.workspace_members.deep_view(),
            nodes: Seq::new(self.nodes@.len(), |i: int| self.nodes@[i]@),
        }
    }
}

impl MetadataView {
    /// Whether `index` is the place of a package.
    pub open spec fn has(self, index: int) -> bool {
        0 <= index < self.packages.len()
    }

    /// Whether the dependency `d` of the node `k` is the package `b`.
    pub open spec fn names(self, k: int, d: int, b: int) -> bool {
        &&& 0 <= k < self.nodes.len()
        &&& 0 <= d < self.nodes[k].dependencies.len()
        &&& self.has(b)
        &&& self.nodes[k].dependencies[d] == self.packages[b].id
    }

    /// Whether the node `k` lists the package `b` among its dependencies.
    pub open spec fn lists(self, k: int, b: int) -> bool {
        exists|d: int| self.names(k, d, b)
    }

    /// Whether the node `k` is that of the package `a`.
    pub open spec fn describes(self, k: int, a: int) -> bool {
        &&& 0 <= k < self.nodes.len()
        &&& self.has(a)
        &&& self.nodes[k].id == self.packages[a].id
    }

    /// Whether the package `a` depends on the package `b` directly: a node of
    /// `a` lists `b`.
    pub open spec fn depends_directly(self, a: int, b: int) -> bool {
        exists|k: int| self.describes(k, a) && self.lists(k, b)
    }

    /// Whether each package of `chain` depends directly on the next.
    pub open spec fn is_chain(self, chain: Seq<int>) -> bool {
        &&& chain.len() > 0
        &&& self.has(chain[0])
        &&& forall|i: int|
            0 <= i < chain.len() - 1 ==> self.depends_directly(#[trigger] chain[i], chain[i + 1])
    }

    /// Whether the package `b` belongs to the dependency graph of the package
    /// `a`: it is `a` itself, or `a` depends on it, directly or through others.
    pub open spec fn depends_on(self, a: int, b: int) -> bool {
        exists|chain: Seq<int>| self.is_chain(chain) && chain[0] == a && chain.last() == b
    }

    /// Whether the package `a` is one of the project's own.
    pub open spec fn is_member(self, a: int) -> bool {
        self.has(a) && self.workspace_members.contains(self.packages[a].id)
    }

    /// Whether the package `b` is the binding-generation library in the
    /// dependency graph of the package `a`.
    pub open spec fn binds(self, a: int, b: int) -> bool {
        self.depends_on(a, b) && self.packages[b].name == "wasm-bindgen"@
    }

    /// The first package from `from` on that is the binding-generation library
    /// in the dependency graph of the package `a`.
    pub open spec fn first_bindgen_from(self, a: int, from: int) -> Option<int>
        decreases self.packages.len() - from,
    {
        if from < 0 || from >= self.packages.len() {
            None
        } else if self.binds(a, from) {
            Some(from)
        } else {
            self.first_bindgen_from(a, from + 1)
        }
    }

    /// The version of the binding-generation library that the package `a` is
    /// built with: that of the first such library in its dependency graph. A
    /// package without one needs no glue code.
    pub open spec fn bindgen_version(self, a: int) -> Option<Seq<char>> {
        match self.first_bindgen_from(a, 0) {
            Some(b) => Some(self.packages[b].version),
            None => None,
        }
    }
}

impl MetadataView {
    /// Whether the node `k` lists the package `b` among its first `upto` dependencies.
    spec fn lists_before(self, k: int, upto: int, b: int) -> bool {
        exists|d: int| d < upto && self.names(k, d, b)
    }

    /// Whether one of the first `upto` nodes is that of the package `a` and
    /// lists the package `b`.
    spec fn depends_directly_before(self, upto: int, a: int, b: int) -> bool {
        exists|k: int| k < upto && self.describes(k, a) && self.lists(k, b)
    }
}

impl Metadata {
    /// Marks the packages that `id` stands for.
    fn mark_named(&self, id: &String, marks: &mut Vec<bool>)
        requires
            old(marks).len() == self.packages.len(),
        ensures
            final(marks).len() == self.packages.len(),
            forall|b: int|
                0 <= b < self.packages.len() ==> (#[trigger] final(marks)@[b] <==> old(marks)@[b]
                    || self.packages[b].id@ == id@),
    {
        let ghost before = marks@;
        let n = self.packages.len();
        let mut b: usize = 0;
        while b < n
            invariant
                n == self.packages.len(),
                marks@.len() == n,
                before.len() == n,
                b <= n,
                forall|j: int|
                    0 <= j < n ==> (#[trigger] marks@[j] <==> before[j] || (j < b
                        && self.packages[j].id@ == id@)),
            decreases n - b,
        {
            if self.packages[b].id == *id {
                marks.set(b, true);
            }
            b = b + 1;
        }
    }

    /// Marks the packages that the node `k` lists.
    fn mark_node(&self, k: usize, marks: &mut Vec<bool>)
        requires
            k < self.nodes.len(),
            old(marks).len() == self.packages.len(),
        ensures
            final(marks).len() == self.packages.len(),
            forall|b: int|
                0 <= b < self.packages.len() ==> (#[trigger] final(marks)@[b] <==> old(marks)@[b]
                    || self@.lists(k as int, b)),
    {
        let ghost before = marks@;
        let node = &self.nodes[k];
        let n = node.dependencies.len();
        let mut d: usize = 0;
        while d < n
            invariant
                k < self.nodes.len(),
                node == self.nodes[k as int],
                n == node.dependencies.len(),
                d <= n,
                marks@.len() == self.packages.len(),
                before.len() == self.packages.len(),
                forall|b: int|
                    0 <= b < self.packages.len() ==> (#[trigger] marks@[b] <==> before[b]
                        || self@.lists_before(k as int, d as int, b)),
            decreases n - d,
        {
            self.mark_named(&node.dependencies[d], marks);
            assert forall|b: int| 0 <= b < self.packages.len() implies (#[trigger] marks@[b]
                <==> before[b] || self@.lists_before(k as int, d + 1, b)) by {
                if self@.lists_before(k as int, d + 1, b) {
                    let w = choose|w: int| w < d + 1 && self@.names(k as int, w, b);
                    if w < d {
                        assert(self@.lists_before(k as int, d as int, b));
                    }
                }
                if self@.lists_before(k as int, d as int, b) {
                    let w = choose|w: int| w < d && self@.names(k as int, w, b);
                    assert(w < d + 1 && self@.names(k as int, w, b));
                }
                if self.packages[b].id@ == node.dependencies[d as int]@ {
                    assert(self@.names(k as int, d as int, b));
                }
            }
            d = d + 1;
        }
        assert forall|b: int| 0 <= b < self.packages.len() implies (self@.lists(k as int, b)
            <==> self@.lists_before(k as int, n as int, b)) by {
            if self@.lists(k as int, b) {
                let w = choose|w: int| self@.names(k as int, w, b);
                assert(w < n && self@.names(k as int, w, b));
            }
        }
    }

    /// Marks the packages that the package `a` depends on directly.
    fn mark_dependencies(&self, a: usize, marks: &mut Vec<bool>)
        requires
            a < self.packages.len(),
            old(marks).len() == self.packages.len(),
        ensures
            final(marks).len() == self.packages.len(),
            forall|b: int|
                0 <= b < self.packages.len() ==> (#[trigger] final(marks)@[b] <==> old(marks)@[b]
                    || self@.depends_directly(a as int, b)),
    {
        let ghost before = marks@;
        let n = self.nodes.len();
        let mut k: usize = 0;
        while k < n
            invariant
                a < self.packages.len(),
                n == self.nodes.len(),
                k <= n,
                marks@.len() == self.packages.len(),
                before.len() == self.packages.len(),
                forall|b: int|
                    0 <= b < self.packages.len() ==> (#[trigger] marks@[b] <==> before[b]
                        || self@.depends_directly_before(k as int, a as int, b)),
            decreases n - k,
        {
            let matched = self.nodes[k].id == self.packages[a].id;
            if matched {
                self.mark_node(k, marks);
            }
            assert(matched == self@.describes(k as int, a as int));
            assert forall|b: int| 0 <= b < self.packages.len() implies (#[trigger] marks@[b]
                <==> before[b] || self@.depends_directly_before(k + 1, a as int, b)) by {
                if self@.depends_directly_before(k + 1, a as int, b) {
                    let w = choose|w: int|
                        w < k + 1 && self@.describes(w, a as int) && self@.lists(w, b);
                    if w < k {
                        assert(self@.depends_directly_before(k as int, a as int, b));
                    }
                }
                if self@.depends_directly_before(k as int, a as int, b) {
                    let w = choose|w: int|
                        w < k && self@.describes(w, a as int) && self@.lists(w, b);
                    assert(w < k + 1 && self@.describes(w, a as int) && self@.lists(w, b));
                }
                if matched && self@.lists(k as int, b) {
                    assert(k < k + 1 && self@.describes(k as int, a as int) && self@.lists(
                        k as int,
                        b,
                    ));
                }
            }
            k = k + 1;
        }
        assert forall|b: int| 0 <= b < self.packages.len() implies (self@.depends_directly(
            a as int,
            b,
        ) <==> self@.depends_directly_before(n as int, a as int, b)) by {
            if self@.depends_directly(a as int, b) {
                let w = choose|w: int| self@.describes(w, a as int) && self@.lists(w, b);
                assert(w < n && self@.describes(w, a as int) && self@.lists(w, b));
            }
        }
    }
}

/// How many of the marks are set.
spec fn count_set(marks: Seq<bool>) -> nat
    decreases marks.len(),
{
    if marks.len() == 0 {
        0
    } else {
        count_set(marks.drop_last()) + if marks.last() {
            1nat
        } else {
            0nat
        }
    }
}

proof fn lemma_count_set_bound(marks: Seq<bool>)
    ensures
        count_set(marks) <= marks.len(),
    decreases marks.len(),
{
    if marks.len() > 0 {
        lemma_count_set_bound(marks.drop_last());
    }
}

proof fn lemma_count_set_grows(marks: Seq<bool>, i: int)
    requires
        0 <= i < marks.len(),
        !marks[i],
    ensures
        count_set(marks.update(i, true)) == count_set(marks) + 1,
    decreases marks.len(),
{
    let set = marks.update(i, true);
    if i == marks.len() - 1 {
        assert(set.drop_last() =~= marks.drop_last());
    } else {
        assert(set.drop_last() =~= marks.drop_last().update(i, true));
        lemma_count_set_grows(marks.drop_last(), i);
    }
}

/// Every package belongs to its own dependency graph.
pub proof fn lemma_depends_on_itself(metadata: MetadataView, a: int)
    requires
        metadata.has(a),
    ensures
        metadata.depends_on(a, a),
{
    let chain = seq![a];
    assert(metadata.is_chain(chain) && chain[0] == a && chain.last() == a);
}

/// What a package of the dependency graph depends on belongs to the graph too.
pub proof fn lemma_depends_on_extends(metadata: MetadataView, a: int, b: int, c: int)
    requires
        metadata.depends_on(a, b),
        metadata.depends_directly(b, c),
    ensures
        metadata.depends_on(a, c),
{
    let chain = choose|chain: Seq<int>|
        metadata.is_chain(chain) && chain[0] == a && chain.last() == b;
    let longer = chain.push(c);
    assert forall|i: int| 0 <= i < longer.len() - 1 implies metadata.depends_directly(
        #[trigger] longer[i],
        longer[i + 1],
    ) by {
        if i < chain.len() - 1 {
            assert(longer[i] == chain[i] && longer[i + 1] == chain[i + 1]);
        }
    }
    assert(metadata.is_chain(longer) && longer[0] == a && longer.last() == c);
}

/// Marks that hold the first package of a chain, and with each package what it
/// depends on directly, hold the whole chain.
proof fn lemma_closed_marks_hold_chain(
    metadata: MetadataView,
    marks: Seq<bool>,
    chain: Seq<int>,
    i: int,
)
    requires
        metadata.is_chain(chain),
        marks.len() == metadata.packages.len(),
        marks[chain[0]],
        forall|a: int, b: int|
            0 <= a < marks.len() && marks[a] && #[trigger] metadata.depends_directly(a, b)
                ==> marks[b],
        0 <= i < chain.len(),
    ensures
        metadata.has(chain[i]),
        marks[chain[i]],
    decreases i,
{
    if i > 0 {
        lemma_closed_marks_hold_chain(metadata, marks, chain, i - 1);
        assert(metadata.depends_directly(chain[i - 1], chain[i - 1 + 1]));
    }
}

fn unmarked(n: usize) -> (marks: Vec<bool>)
    ensures
        marks@.len() == n,
        forall|i: int| 0 <= i < n ==> !marks@[i],
        count_set(marks@) == 0,
{
    let mut marks: Vec<bool> = Vec::new();
    while marks.len() < n
        invariant
            marks@.len() <= n,
            forall|i: int| 0 <= i < marks@.len() ==> !marks@[i],
            count_set(marks@) == 0,
        decreases n - marks@.len(),
    {
        let ghost before = marks@;
        marks.push(false);
        assert(marks@.drop_last() =~= before);
    }
    marks
}

impl Metadata {
    /// The dependency graph of the package `start`: a mark for each package,
    /// set for `start` itself and for what it depends on, directly or through
    /// others. Where `start` is no package, no mark is set.
    pub fn dependency_marks(&self, start: usize) -> (marks: Vec<bool>)
        ensures
            marks@.len() == self.packages.len(),
            forall|b: int|
                0 <= b < self.packages.len() ==> (#[trigger] marks@[b] <==> self@.depends_on(
                    start as int,
                    b,
                )),
    {
        let n = self.packages.len();
        let mut marks = unmarked(n);
        if start >= n {
            assert forall|b: int| 0 <= b < n implies !self@.depends_on(start as int, b) by {
                if self@.depends_on(start as int, b) {
                    let chain = choose|chain: Seq<int>|
                        self@.is_chain(chain) && chain[0] == start as int && chain.last() == b;
                    assert(self@.has(chain[0]));
                }
            }
            return marks;
        }
        let mut done = unmarked(n);
        marks.set(start, true);
        proof {
            lemma_depends_on_itself(self@, start as int);
        }
        let mut finished: usize = 0;
        loop
            invariant
                n == self.packages.len(),
                start < n,
                marks@.len() == n,
                done@.len() == n,
                marks@[start as int],
                finished == count_set(done@),
                forall|b: int|
                    0 <= b < n && #[trigger] marks@[b] ==> self@.depends_on(start as int, b),
                forall|a: int| 0 <= a < n && #[trigger] done@[a] ==> marks@[a],
                forall|a: int, b: int|
                    0 <= a < n && done@[a] && #[trigger] self@.depends_directly(a, b)
                        ==> marks@[b],
            ensures
                forall|a: int| 0 <= a < n && #[trigger] marks@[a] ==> done@[a],
            decreases n - finished,
        {
            let mut a: usize = 0;
            while a < n && !(marks[a] && !done[a])
                invariant
                    a <= n,
                    marks@.len() == n,
                    done@.len() == n,
                    forall|j: int| 0 <= j < a && #[trigger] marks@[j] ==> done@[j],
                decreases n - a,
            {
                a = a + 1;
            }
            if a == n {
                break ;
            }
            proof {
                lemma_count_set_grows(done@, a as int);
                lemma_count_set_bound(done@.update(a as int, true));
            }
            let ghost earlier = marks@;
            done.set(a, true);
            self.mark_dependencies(a, &mut marks);
            finished = finished + 1;
            assert forall|b: int| 0 <= b < n && #[trigger] marks@[b] implies self@.depends_on(
                start as int,
                b,
            ) by {
                if !earlier[b] {
                    lemma_depends_on_extends(self@, start as int, a as int, b);
                }
            }
            assert forall|x: int, b: int|
                0 <= x < n && done@[x] && #[trigger] self@.depends_directly(
                    x,
                    b,
                ) implies marks@[b] by {
                assert(self@.has(b));
                if x != a {
                    assert(earlier[b]);
                }
            }
        }
        assert forall|b: int| 0 <= b < n && self@.depends_on(start as int, b) implies marks@[b] by {
            let chain = choose|chain: Seq<int>|
                self@.is_chain(chain) && chain[0] == start as int && chain.last() == b;
            lemma_closed_marks_hold_chain(self@, marks@, chain, chain.len() - 1);
        }
        marks
    }
}

/// The library found from `from` on is the first: it lies in the dependency
/// graph of the package, bears the library's name, and no package between
/// `from` and it does both. Where none is found, no package from `from` on
/// does both.
pub proof fn lemma_first_bindgen(metadata: MetadataView, a: int, from: int)
    requires
        0 <= from,
    ensures
        match metadata.first_bindgen_from(a, from) {
            Some(b) => {
                &&& from <= b < metadata.packages.len()
                &&& metadata.binds(a, b)
                &&& forall|j: int| from <= j < b ==> !metadata.binds(a, j)
            },
            None => forall|j: int| from <= j < metadata.packages.len() ==> !metadata.binds(a, j),
        },
    decreases metadata.packages.len() - from,
{
    if from < metadata.packages.len() && !metadata.binds(a, from) {
        lemma_first_bindgen(metadata, a, from + 1);
    }
}

impl Metadata {
    /// Whether the package `a` is one of the project's own.
    pub fn is_member(&self, a: usize) -> (member: bool)
        ensures
            member == self@.is_member(a as int),
    {
        if a >= self.packages.len() {
            return false;
        }
        let n = self.workspace_members.len();
        let mut i: usize = 0;
        while i < n
            invariant
                a < self.packages.len(),
                n == self.workspace_members.len(),
                i <= n,
                forall|j: int|
                    0 <= j < i ==> #[trigger] self@.workspace_members[j]
                        != self@.packages[a as int].id,
            decreases n - i,
        {
            if self.workspace_members[i] == self.packages[a].id {
                assert(self@.workspace_members[i as int] == self@.packages[a as int].id);
                return true;
            }
            i = i + 1;
        }
        false
    }

    /// The version of the binding-generation library that the package `a` is
    /// built with, if its dependency graph holds one.
    pub fn bindgen_version(&self, a: usize) -> (version: Option<String>)
        ensures
            match version {
                Some(v) => self@.bindgen_version(a as int) == Some(v@),
                None => self@.bindgen_version(a as int) is None,
            },
    {
        let marks = self.dependency_marks(a);
        let library = String::from_str(crate::WASM_BINDGEN);
        let n = self.packages.len();
        let mut b: usize = 0;
        while b < n
            invariant
                n == self.packages.len(),
                marks@.len() == n,
                b <= n,
                library@ == "wasm-bindgen"@,
                forall|j: int|
                    0 <= j < n ==> (#[trigger] marks@[j] <==> self@.depends_on(a as int, j)),
                self@.first_bindgen_from(a as int, 0) == self@.first_bindgen_from(
                    a as int,
                    b as int,
                ),
            decreases n - b,
        {
            if marks[b] && self.packages[b].name == library {
                assert(self@.binds(a as int, b as int));
                return Some(self.packages[b].version.clone());
            }
            assert(!self@.binds(a as int, b as int));
            b = b + 1;
        }
        None
    }
}

} // verus!
