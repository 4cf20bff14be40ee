//! The scene aggregator: every appended mesh lands in one shared vertex list,
//! one shared index list and one instance list.
use crate::mesh::{CFrame, Mesh, Vertex};
use vstd::prelude::*;

verus! {

/// Reasons a mesh is refused by `Storrage::append`; a refused mesh changes nothing.
#[derive(Clone, Copy, Debug, PartialEq, Eq, Structural)]
pub enum SceneError {
    /// The mesh has no vertices.
    EmptyMesh,
    /// A local index does not name one of the mesh's own vertices, or the
    /// shifted index does not fit in 16 bits.
    IndexOutOfRange,
}

/// The aggregator's contents.
pub struct SceneView {
    pub vertices: Seq<Vertex>,
    pub indices: Seq<u16>,
    pub instances: Seq<CFrame>,
}

impl SceneView {
    /// Every index names a vertex of the list.
    pub open spec fn indices_in_range(self) -> bool {
        forall|i: int| 0 <= i < self.indices.len() ==> #[trigger] self.indices[i] < self.vertices.len()
    }
}

/// Whether local index `k` of a mesh with `count` vertices, appended after
/// `base` vertices, is acceptable.
pub open spec fn index_acceptable(k: u16, count: nat, base: nat) -> bool {
    k < count && base + k <= u16::MAX
}

/// Why a mesh cannot be appended after `base` vertices, if it cannot.
pub open spec fn append_error(base: nat, mesh: Mesh) -> Option<SceneError> {
    if mesh.vertices@.len() == 0 {
        Some(SceneError::EmptyMesh)
    } else if exists|j: int|
        0 <= j < mesh.indices@.len() && !index_acceptable(
            #[trigger] mesh.indices@[j],
            mesh.vertices@.len(),
            base,
        ) {
        Some(SceneError::IndexOutOfRange)
    } else {
        None
    }
}

/// Local indices shifted past the `base` vertices already held.
pub open spec fn offset_indices(local: Seq<u16>, base: nat) -> Seq<u16> {
    local.map_values(|k: u16| (k + base) as u16)
}

/// The contents after `mesh` has been appended.
pub open spec fn after_append(s: SceneView, mesh: Mesh) -> SceneView {
    SceneView {
        vertices: s.vertices + mesh.vertices@,
        indices: s.indices + offset_indices(mesh.indices@, s.vertices.len()),
        instances: s.instances.push(mesh.cframe),
    }
}

/// The contents after each mesh of `meshes` has been appended, in order.
pub open spec fn after_appends(s: SceneView, meshes: Seq<Mesh>) -> SceneView
    decreases meshes.len(),
{
    if meshes.len() == 0 {
        s
    } else {
        after_append(after_appends(s, meshes.drop_last()), meshes.last())
    }
}

/// Shared vertex, index and instance lists of all meshes appended so far.
pub struct Storrage {
    vertex_list: Vec<Vertex>,
    index_list: Vec<u16>,
    instance_list: Vec<CFrame>,
}

impl View for Storrage {
    type V = SceneView;

    closed spec fn view(&self) -> SceneView {
        SceneView {
            vertices: self.vertex_list@,
            indices: self.index_list@,
            instances: self.instance_list@,
        }
    }
}

impl Storrage {
    pub open spec fn wf(&self) -> bool {
        self@.indices_in_range()
    }

    pub fn new() -> (r: Storrage)
        ensures
            r.wf(),
            r@.vertices.len() == 0,
            r@.indices.len() == 0,
            r@.instances.len() == 0,
    {
        Storrage { vertex_list: Vec::new(), index_list: Vec::new(), instance_list: Vec::new() }
    }

    /// Appends a mesh: its indices shifted by the vertex count held before it,
    /// then its vertices, then its placement. The mesh is checked first, and a
    /// refused mesh leaves the lists as they were.
    pub fn append(&mut self, mesh: &Mesh) -> (r: Result<(), SceneError>)
        requires
            old(self).wf(),
        ensures
            final(self).wf(),
            match append_error(old(self)@.vertices.len(), *mesh) {
                Some(e) => r == Err::<(), SceneError>(e) && final(self)@ == old(self)@,
                None => r is Ok && final(self)@ == after_append(old(self)@, *mesh),
            },
    {
        let base = self.vertex_list.len();
        let count = mesh.vertices.len();
        if count == 0 {
            return Err(SceneError::EmptyMesh);
        }
        let mut j: usize = 0;
        while j < mesh.indices.len()
            invariant
                self@ == old(self)@,
                self.wf(),
                base == old(self)@.vertices.len(),
                count == mesh.vertices@.len(),
                count > 0,
                j <= mesh.indices@.len(),
                forall|t: int|
                    0 <= t < j ==> index_acceptable(#[trigger] mesh.indices@[t], count as nat, base as nat),
            decreases mesh.indices@.len() - j,
        {
            let k = mesh.indices[j] as usize;
            if k >= count || base > 0xFFFF - k {
                assert(!index_acceptable(mesh.indices@[j as int], count as nat, base as nat));

                return Err(SceneError::IndexOutOfRange);
            }
            j += 1;
        }
        let ghost before = self@;
        let mut j: usize = 0;
        while j < mesh.indices.len()
            invariant
                base == before.vertices.len(),
                count == mesh.vertices@.len(),
                self.vertex_list@ == before.vertices,
                self.instance_list@ == before.instances,
                j <= mesh.indices@.len(),
                forall|t: int|
                    0 <= t < mesh.indices@.len() ==> index_acceptable(
                        #[trigger] mesh.indices@[t],
                        count as nat,
                        base as nat,
                    ),
                self.index_list@ =~= before.indices + offset_indices(mesh.indices@, base as nat).take(
                    j as int,
                ),
            decreases mesh.indices@.len() - j,
        {
            let k = mesh.indices[j] as usize;
            assert(index_acceptable(mesh.indices@[j as int], count as nat, base as nat));
            self.index_list.push((k + base) as u16);
            assert(offset_indices(mesh.indices@, base as nat).take(j + 1) =~= offset_indices(
                mesh.indices@,
                base as nat,
            ).take(j as int).push(((k + base) as u16)));
            j += 1;
        }
        assert(offset_indices(mesh.indices@, base as nat).take(mesh.indices@.len() as int)
            =~= offset_indices(mesh.indices@, base as nat));
        let mut v: usize = 0;
        while v < count
            invariant
                count == mesh.vertices@.len(),
                self.vertex_list@ =~= before.vertices + mesh.vertices@.take(v as int),
                self.index_list@ == before.indices + offset_indices(mesh.indices@, base as nat),
                self.instance_list@ == before.instances,
                v <= count,
            decreases count - v,
        {
            self.vertex_list.push(mesh.vertices[v]);
            assert(mesh.vertices@.take(v + 1) =~= mesh.vertices@.take(v as int).push(
                mesh.vertices@[v as int],
            ));
            v += 1;
        }
        assert(mesh.vertices@.take(count as int) =~= mesh.vertices@);
        self.instance_list.push(mesh.cframe);
        proof {
            let s = self@;
            assert forall|i: int| 0 <= i < s.indices.len() implies #[trigger] s.indices[i]
                < s.vertices.len() by {
                if i >= before.indices.len() {
                    let t = i - before.indices.len();
                    assert(index_acceptable(mesh.indices@[t], count as nat, base as nat));
                }
            }
        }
        Ok(())
    }

    pub fn vertex_list(&self) -> (r: &Vec<Vertex>)
        ensures
            r@ == self@.vertices,
    {
        &self.vertex_list
    }

    pub fn index_list(&self) -> (r: &Vec<u16>)
        ensures
            r@ == self@.indices,
    {
        &self.index_list
    }

    pub fn instance_list(&self) -> (r: &Vec<CFrame>)
        ensures
            r@ == self@.instances,
    {
        &self.instance_list
    }

    /// Instance count of the one indexed draw that renders the scene.
    pub fn draw_instance_count(&self) -> (r: usize)
        ensures
            r == self@.instances.len(),
    {
        self.instance_list.len()
    }
}

impl Mesh {
    /// Submits this mesh to the scene; see `Storrage::append`.
    pub fn load(&self, store: &mut Storrage) -> (r: Result<(), SceneError>)
        requires
            old(store).wf(),
        ensures
            final(store).wf(),
            match append_error(old(store)@.vertices.len(), *self) {
                Some(e) => r == Err::<(), SceneError>(e) && final(store)@ == old(store)@,
                None => r is Ok && final(store)@ == after_append(old(store)@, *self),
            },
    {
        store.append(self)
    }
}

/// Appending a mesh with `V` vertices and `I` indices adds exactly `V`
/// vertices, `I` indices and one instance.
pub proof fn lemma_append_growth(s: SceneView, mesh: Mesh)
    requires
        append_error(s.vertices.len(), mesh) is None,
    ensures
        after_append(s, mesh).vertices.len() == s.vertices.len() + mesh.vertices@.len(),
        after_append(s, mesh).indices.len() == s.indices.len() + mesh.indices@.len(),
        after_append(s, mesh).instances.len() == s.instances.len() + 1,
        after_append(s, mesh).instances.last() == mesh.cframe,
{
}

/// The instance list holds one placement per appended mesh, in append order.
pub proof fn lemma_one_instance_per_mesh(s: SceneView, meshes: Seq<Mesh>)
    ensures
        after_appends(s, meshes).instances.len() == s.instances.len() + meshes.len(),
        forall|i: int|
            0 <= i < meshes.len() ==> #[trigger] after_appends(s, meshes).instances[s.instances.len()
                + i] == meshes[i].cframe,
        after_appends(s, meshes).instances.take(s.instances.len() as int) == s.instances,
    decreases meshes.len(),
{
    if meshes.len() == 0 {
        assert(s.instances.take(s.instances.len() as int) =~= s.instances);
    } else {
        let ms = meshes.drop_last();
        lemma_one_instance_per_mesh(s, ms);
        let before = after_appends(s, ms);
        let after = after_appends(s, meshes);
        assert(after.instances == before.instances.push(meshes.last().cframe));
        assert(after.instances.take(s.instances.len() as int) =~= before.instances.take(
            s.instances.len() as int,
        ));
        assert forall|i: int| 0 <= i < meshes.len() implies #[trigger] after.instances[s.instances.len()
            + i] == meshes[i].cframe by {
            if i < ms.len() {
                assert(after.instances[s.instances.len() + i] == before.instances[s.instances.len()
                    + i]);
                assert(ms[i] == meshes[i]);
            }
        }
    }
}

/// An appended mesh's indices are its local indices shifted by the vertex count
/// held before it: they name only its own vertices, never an earlier mesh's,
/// and the entries of earlier meshes are left as they were.
pub proof fn lemma_append_offsets(s: SceneView, mesh: Mesh)
    requires
        s.indices_in_range(),
        append_error(s.vertices.len(), mesh) is None,
    ensures
        after_append(s, mesh).indices_in_range(),
        after_append(s, mesh).indices.take(s.indices.len() as int) == s.indices,
        after_append(s, mesh).vertices.take(s.vertices.len() as int) == s.vertices,
        forall|t: int|
            0 <= t < mesh.indices@.len() ==> {
                let g = #[trigger] after_append(s, mesh).indices[s.indices.len() + t];
                &&& g == mesh.indices@[t] + s.vertices.len()
                &&& s.vertices.len() <= g < s.vertices.len() + mesh.vertices@.len()
            },
{
    let a = after_append(s, mesh);
    assert(a.indices.take(s.indices.len() as int) =~= s.indices);
    assert(a.vertices.take(s.vertices.len() as int) =~= s.vertices);
    assert forall|t: int| 0 <= t < mesh.indices@.len() implies index_acceptable(
        #[trigger] mesh.indices@[t],
        mesh.vertices@.len(),
        s.vertices.len(),
    ) by {}
    assert forall|i: int| 0 <= i < a.indices.len() implies #[trigger] a.indices[i] < a.vertices.len() by {
        if i >= s.indices.len() {
            assert(index_acceptable(
                mesh.indices@[i - s.indices.len()],
                mesh.vertices@.len(),
                s.vertices.len(),
            ));
        }
    }
}

} // verus!
