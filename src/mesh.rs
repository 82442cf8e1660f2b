//! The geometry-file loader: a state machine over the lines of a geometry
//! file that fills the vertex pool, resolves faces, groups them into meshes
//! and asks for the material libraries that the file names.
use vstd::prelude::*;
use crate::error::{ErrorView, ParseError};
use crate::face::{face_vertices, parse_face};
use crate::material::{material_views, Material, MaterialView};
use crate::pool::{PoolView, VertexPool};
use crate::text::{chars_of, is_word, join_rest, rest_text, split_tokens, string_of, tokens, views};
use crate::number::is_float_literal;
use crate::vector::{normal_record, one_text, position_record, texture_record};
use crate::vertex::{Vertex, VertexView, vertex_views};

verus! {

/// One mesh: the vertices of the faces of one group, with the group's name
/// and the name of its material.
#[derive(Debug)]
pub struct MeshDescription {
    pub vertices: Vec<Vertex>,
    pub name: String,
    pub material: String,
}

/// The abstract value of a `MeshDescription`.
pub struct MeshView {
    pub name: Seq<char>,
    pub material: Seq<char>,
    pub vertices: Seq<VertexView>,
}

impl View for MeshDescription {
    type V = MeshView;

    open spec fn view(&self) -> MeshView {
        MeshView { name: self.name@, material: self.material@, vertices: vertex_views(self.vertices@) }
    }
}

pub open spec fn mesh_views(ms: Seq<MeshDescription>) -> Seq<MeshView> {
    ms.map_values(|m: MeshDescription| m@)
}

/// What a loaded geometry file yields: its materials, one per name, and its
/// meshes in the order they were completed.
#[derive(Debug)]
pub struct MeshDescriptions {
    pub materials: Vec<Material>,
    pub meshes: Vec<MeshDescription>,
}

/// The abstract value of a `MeshDescriptions`.
pub struct SceneView {
    pub materials: Seq<MaterialView>,
    pub meshes: Seq<MeshView>,
}

impl View for MeshDescriptions {
    type V = SceneView;

    open spec fn view(&self) -> SceneView {
        SceneView { materials: material_views(self.materials@), meshes: mesh_views(self.meshes@) }
    }
}

/// The first index at or after `i` of a material named `name`, or `ms.len()`.
pub open spec fn name_index(ms: Seq<MaterialView>, name: Seq<char>, i: int) -> int
    decreases ms.len() - i,
{
    if 0 <= i < ms.len() {
        if ms[i].name == name {
            i
        } else {
            name_index(ms, name, i + 1)
        }
    } else {
        ms.len() as int
    }
}

/// No two materials share a name.
pub open spec fn names_unique(ms: Seq<MaterialView>) -> bool {
    forall|i: int, j: int| 0 <= i < ms.len() && 0 <= j < ms.len() && i != j ==> ms[i].name != ms[j].name
}

/// `m` stored under its name: it replaces a material of the same name, or
/// is added at the end.
pub open spec fn insert_material(ms: Seq<MaterialView>, m: MaterialView) -> Seq<MaterialView> {
    let k = name_index(ms, m.name, 0);
    if k < ms.len() {
        ms.update(k, m)
    } else {
        ms.push(m)
    }
}

/// The materials of `new` stored one after the other: a later one wins over
/// an earlier one of the same name.
pub open spec fn merge_materials(ms: Seq<MaterialView>, new: Seq<MaterialView>) -> Seq<MaterialView>
    decreases new.len(),
{
    if new.len() == 0 {
        ms
    } else {
        insert_material(merge_materials(ms, new.drop_last()), new.last())
    }
}

/// The material name a mesh gets when no `usemtl` came before it.
pub open spec fn placeholder_material() -> Seq<char> {
    "unknown material"@
}

/// Where the loader stands: the pool, the current material and group name,
/// the resolved vertices of the group not yet flushed, the materials and
/// meshes collected, and the directory of the geometry file.
pub struct LoaderState {
    pub pool: PoolView,
    pub current_material: Seq<char>,
    pub group_name: Seq<char>,
    pub faces: Seq<VertexView>,
    pub materials: Seq<MaterialView>,
    pub meshes: Seq<MeshView>,
    pub directory: Seq<char>,
}

pub open spec fn loader_start(directory: Seq<char>) -> LoaderState {
    LoaderState {
        pool: PoolView { positions: seq![], normals: seq![], textures: seq![] },
        current_material: placeholder_material(),
        group_name: seq![],
        faces: seq![],
        materials: seq![],
        meshes: seq![],
        directory,
    }
}

/// The pending faces made into a mesh named after the current group, with
/// the current material.
pub open spec fn flush(st: LoaderState) -> LoaderState {
    LoaderState {
        meshes: st.meshes.push(
            MeshView { name: st.group_name, material: st.current_material, vertices: st.faces },
        ),
        faces: seq![],
        ..st
    }
}

/// One line of a geometry file, given as its tokens: the next state, and the
/// path of a material library to read (for `mtllib`), or the error that ends
/// the load.
pub open spec fn geometry_line(st: LoaderState, toks: Seq<Seq<char>>) -> Result<
    (LoaderState, Option<Seq<char>>),
    ErrorView,
> {
    if toks.len() == 0 {
        Ok((st, None))
    } else {
        let key = toks[0];
        let args = toks.drop_first();
        let rest = rest_text(toks);
        if key == "mtllib"@ {
            Ok((st, Some(st.directory + seq!['/'] + rest)))
        } else if key == "v"@ {
            match position_record(args) {
                Some(p) => Ok(
                    (
                        LoaderState {
                            pool: PoolView { positions: st.pool.positions.push(p), ..st.pool },
                            ..st
                        },
                        None,
                    ),
                ),
                None => Err(ErrorView::General),
            }
        } else if key == "vn"@ {
            match normal_record(args) {
                Some(n) => Ok(
                    (
                        LoaderState {
                            pool: PoolView { normals: st.pool.normals.push(n), ..st.pool },
                            ..st
                        },
                        None,
                    ),
                ),
                None => Err(ErrorView::General),
            }
        } else if key == "vt"@ {
            match texture_record(args) {
                Some(t) => Ok(
                    (
                        LoaderState {
                            pool: PoolView { textures: st.pool.textures.push(t), ..st.pool },
                            ..st
                        },
                        None,
                    ),
                ),
                None => Err(ErrorView::General),
            }
        } else if key == "g"@ {
            if st.faces.len() == 0 {
                Ok((LoaderState { group_name: rest, ..st }, None))
            } else {
                Ok((LoaderState { group_name: rest, ..flush(st) }, None))
            }
        } else if key == "usemtl"@ {
            Ok((LoaderState { current_material: rest, ..st }, None))
        } else if key == "f"@ {
            match face_vertices(args, st.pool) {
                Some(vs) => Ok((LoaderState { faces: st.faces + vs, ..st }, None)),
                None => Err(ErrorView::General),
            }
        } else if key == "vp"@ || key == "s"@ || key == "#"@ {
            Ok((st, None))
        } else {
            Err(ErrorView::UnknownToken(key))
        }
    }
}

/// The result of a loader at the end of the file: the pending faces are
/// flushed, even when there are none.
pub open spec fn loader_finish(st: LoaderState) -> SceneView {
    SceneView { materials: st.materials, meshes: flush(st).meshes }
}

/// What the caller of `ObjLoader::process_line` does next.
#[derive(Debug)]
pub enum LineAction {
    /// Go on with the next line.
    Continue,
    /// Read the material library at this path, hand its materials to
    /// `ObjLoader::add_materials`, then go on.
    LoadLibrary(String),
}

pub open spec fn action_view(a: LineAction) -> Option<Seq<char>> {
    match a {
        LineAction::Continue => None,
        LineAction::LoadLibrary(p) => Some(p@),
    }
}

/// The state of a geometry file being loaded, fed one line at a time.
pub struct ObjLoader {
    pool: VertexPool,
    current_material: String,
    group_name: String,
    faces: Vec<Vertex>,
    materials: Vec<Material>,
    meshes: Vec<MeshDescription>,
    directory: Vec<char>,
}

impl View for ObjLoader {
    type V = LoaderState;

    closed spec fn view(&self) -> LoaderState {
        LoaderState {
            pool: self.pool@,
            current_material: self.current_material@,
            group_name: self.group_name@,
            faces: vertex_views(self.faces@),
            materials: material_views(self.materials@),
            meshes: mesh_views(self.meshes@),
            directory: self.directory@,
        }
    }
}

} // verus!

verus! {

fn general(detail: &str) -> (e: ParseError)
    ensures
        e@ == ErrorView::General,
{
    ParseError::GeneralError(detail.to_owned())
}

/// Where a material named `name` is stored in `ms`, or `ms.len()`.
fn find_material(ms: &Vec<Material>, name: &String) -> (r: usize)
    ensures
        r as int == name_index(material_views(ms@), name@, 0),
{
    let ghost mv = material_views(ms@);
    let mut i: usize = 0;
    while i < ms.len()
        invariant
            i <= ms.len(),
            mv == material_views(ms@),
            name_index(mv, name@, i as int) == name_index(mv, name@, 0),
        decreases ms.len() - i,
    {
        if ms[i].name == *name {
            return i;
        }
        i += 1;
    }
    i
}

impl MeshDescription {
    /// A mesh from its parts.
    pub fn new(name: String, material: String, vertices: Vec<Vertex>) -> (r: MeshDescription)
        ensures
            r@ == (MeshView { name: name@, material: material@, vertices: vertex_views(vertices@) }),
    {
        MeshDescription { name, material, vertices }
    }
}

impl MeshDescriptions {
    /// The result of a load from its parts.
    pub fn new(meshes: Vec<MeshDescription>, materials: Vec<Material>) -> (r: MeshDescriptions)
        ensures
            r@ == (SceneView { materials: material_views(materials@), meshes: mesh_views(meshes@) }),
    {
        MeshDescriptions { materials, meshes }
    }

    /// The material named `name`, if there is one.
    pub fn get_material(&self, name: &String) -> (r: Option<&Material>)
        ensures
            ({
                let k = name_index(self@.materials, name@, 0);
                if k < self@.materials.len() {
                    r is Some && r->0@ == self@.materials[k]
                } else {
                    r is None
                }
            }),
    {
        let k = find_material(&self.materials, name);
        if k < self.materials.len() {
            Some(&self.materials[k])
        } else {
            None
        }
    }
}

impl ObjLoader {
    /// A loader for a geometry file that lies in `directory`.
    pub fn new(directory: &str) -> (r: ObjLoader)
        ensures
            r@ == loader_start(directory@),
            names_unique(r@.materials),
    {
        let r = ObjLoader {
            pool: VertexPool::new(),
            current_material: "unknown material".to_owned(),
            group_name: String::new(),
            faces: Vec::new(),
            materials: Vec::new(),
            meshes: Vec::new(),
            directory: chars_of(directory),
        };
        proof {
            assert(r@.pool.positions == Seq::<Seq<Seq<char>>>::empty());
            assert(r@.pool.normals == Seq::<Seq<Seq<char>>>::empty());
            assert(r@.pool.textures == Seq::<Seq<Seq<char>>>::empty());
            assert(r@.faces == Seq::<VertexView>::empty());
            assert(r@.materials == Seq::<MaterialView>::empty());
            assert(r@.meshes == Seq::<MeshView>::empty());
            assert(r@.group_name == Seq::<char>::empty());
        }
        r
    }

    /// Moves the pending faces into a new mesh named `name`.
    fn flush_into_mesh(&mut self, name: String)
        ensures
            final(self)@ == (LoaderState {
                meshes: old(self)@.meshes.push(
                    MeshView {
                        name: name@,
                        material: old(self)@.current_material,
                        vertices: old(self)@.faces,
                    },
                ),
                faces: seq![],
                ..old(self)@
            }),
    {
        let mut vs: Vec<Vertex> = Vec::new();
        std::mem::swap(&mut vs, &mut self.faces);
        let mesh = MeshDescription::new(name, self.current_material.clone(), vs);
        let ghost before = self.meshes@;
        self.meshes.push(mesh);
        proof {
            assert(mesh_views(self.meshes@) == mesh_views(before).push(mesh@));
            assert(vertex_views(self.faces@) == Seq::<VertexView>::empty());
        }
    }

    /// Feeds one line of the geometry file: see `geometry_line`. On
    /// `LoadLibrary` the caller reads that library and hands its materials to
    /// `add_materials` before the next line. An error ends the load.
    pub fn process_line(&mut self, line: &str) -> (r: Result<LineAction, ParseError>)
        ensures
            match geometry_line(old(self)@, tokens(line@)) {
                Ok((st, path)) => r is Ok && final(self)@ == st && action_view(r->Ok_0) == path,
                Err(e) => r is Err && r->Err_0@ == e,
            },
    {
        let mut toks = split_tokens(&chars_of(line));
        if toks.len() == 0 {
            return Ok(LineAction::Continue);
        }
        let ghost all = views(toks@);
        let rest = join_rest(&toks);
        let key = toks.remove(0);
        let args = &toks;
        proof {
            assert(views(args@) == all.drop_first());
            assert(key@ == all[0]);
        }
        if is_word(&key, "mtllib") {
            let mut path = self.directory.clone();
            path.push('/');
            let ghost base = path@;
            let mut i: usize = 0;
            while i < rest.len()
                invariant
                    i <= rest.len(),
                    base == self.directory@ + seq!['/'],
                    path@ == base + rest@.take(i as int),
                decreases rest.len() - i,
            {
                path.push(rest[i]);
                proof {
                    assert(rest@.take(i + 1) == rest@.take(i as int).push(rest@[i as int]));
                }
                i += 1;
            }
            proof {
                assert(rest@.take(rest@.len() as int) == rest@);
            }
            Ok(LineAction::LoadLibrary(string_of(&path)))
        } else if is_word(&key, "v") {
            match self.pool.append_position(args) {
                Ok(()) => Ok(LineAction::Continue),
                Err(e) => Err(e),
            }
        } else if is_word(&key, "vn") {
            match self.pool.append_normal(args) {
                Ok(()) => Ok(LineAction::Continue),
                Err(e) => Err(e),
            }
        } else if is_word(&key, "vt") {
            match self.pool.append_texture(args) {
                Ok(()) => Ok(LineAction::Continue),
                Err(e) => Err(e),
            }
        } else if is_word(&key, "g") {
            let mut name = string_of(&rest);
            if self.faces.len() == 0 {
                self.group_name = name;
            } else {
                std::mem::swap(&mut name, &mut self.group_name);
                self.flush_into_mesh(name);
            }
            Ok(LineAction::Continue)
        } else if is_word(&key, "usemtl") {
            self.current_material = string_of(&rest);
            Ok(LineAction::Continue)
        } else if is_word(&key, "f") {
            match parse_face(args, &self.pool) {
                Ok(vs) => {
                    let ghost before = vertex_views(self.faces@);
                    let mut vs = vs;
                    self.faces.append(&mut vs);
                    proof {
                        assert(vertex_views(self.faces@) =~= before + face_vertices(
                            views(args@),
                            old(self)@.pool,
                        )->0);
                    }
                    Ok(LineAction::Continue)
                },
                Err(_) => Err(general("Error parsing face")),
            }
        } else if is_word(&key, "vp") || is_word(&key, "s") || is_word(&key, "#") {
            Ok(LineAction::Continue)
        } else {
            Err(ParseError::UnknownToken(string_of(&key)))
        }
    }

    /// Stores the materials of a library: each replaces a stored material of
    /// the same name, or is added at the end.
    pub fn add_materials(&mut self, materials: Vec<Material>)
        ensures
            final(self)@ == (LoaderState {
                materials: merge_materials(old(self)@.materials, material_views(materials@)),
                ..old(self)@
            }),
            names_unique(old(self)@.materials) ==> names_unique(final(self)@.materials),
    {
        let ghost new = material_views(materials@);
        let mut materials = materials;
        let mut k: usize = 0;
        let total = materials.len();
        proof {
            assert(new.len() == total);
            assert(new.skip(0) == new);
            assert(new.take(0) == Seq::<MaterialView>::empty());
        }
        while materials.len() > 0
            invariant
                k + materials@.len() == new.len(),
                new.len() <= usize::MAX,
                material_views(materials@) == new.skip(k as int),
                self@ == (LoaderState {
                    materials: merge_materials(old(self)@.materials, new.take(k as int)),
                    ..old(self)@
                }),
            decreases materials.len(),
        {
            let ghost before = materials@;
            let m = materials.remove(0);
            proof {
                assert(materials@ == before.drop_first());
                assert(m == before[0]);
                assert(material_views(before)[0] == m@);
                assert(new.skip(k as int)[0] == new[k as int]);
                assert(m@ == new[k as int]);
                assert(material_views(materials@) == material_views(before).drop_first());
                assert(new.skip(k as int).drop_first() == new.skip(k + 1));
                assert(new.take(k + 1).drop_last() == new.take(k as int));
            }
            let at = find_material(&self.materials, &m.name);
            let ghost stored = material_views(self.materials@);
            if at < self.materials.len() {
                self.materials.set(at, m);
                proof {
                    assert(material_views(self.materials@) == stored.update(at as int, m@));
                }
            } else {
                self.materials.push(m);
                proof {
                    assert(material_views(self.materials@) == stored.push(m@));
                }
            }
            k += 1;
        }
        proof {
            assert(new.take(k as int) == new);
            if names_unique(old(self)@.materials) {
                lemma_merge_keeps_names_unique(old(self)@.materials, new);
            }
        }
    }

    /// Ends the load: the pending faces become the last mesh, even when there
    /// are none. See `loader_finish`.
    pub fn finish(self) -> (r: MeshDescriptions)
        ensures
            r@ == loader_finish(self@),
    {
        let mut this = self;
        let name = this.group_name.clone();
        this.flush_into_mesh(name);
        MeshDescriptions::new(this.meshes, this.materials)
    }
}

} // verus!

verus! {

proof fn lemma_keywords_differ()
    ensures
        "mtllib"@ != "v"@,
        "mtllib"@ != "g"@,
        "v"@ != "g"@,
        "vn"@ != "g"@,
        "vt"@ != "g"@,
        "mtllib"@.len() == 6,
        "v"@.len() == 1,
        "vn"@.len() == 2,
        "vt"@.len() == 2,
        "g"@.len() == 1,
        "v"@ == seq!['v'],
        "g"@ == seq!['g'],
{
    reveal_strlit("mtllib");
    reveal_strlit("v");
    reveal_strlit("vn");
    reveal_strlit("vt");
    reveal_strlit("g");
    assert("v"@[0] != "g"@[0]);
}

/// A position line `v x y z` stores the record `(x, y, z, 1.0)`: the fourth
/// component defaults to `1.0`.
pub proof fn lemma_position_w_defaults_to_one(st: LoaderState, toks: Seq<Seq<char>>)
    requires
        toks.len() == 4,
        toks[0] == "v"@,
        forall|i: int| 1 <= i < 4 ==> is_float_literal(#[trigger] toks[i]),
    ensures
        geometry_line(st, toks) is Ok,
        geometry_line(st, toks)->Ok_0.0.pool.positions == st.pool.positions.push(
            seq![toks[1], toks[2], toks[3], one_text()],
        ),
        geometry_line(st, toks)->Ok_0.0.pool.positions.last()[3] == one_text(),
{
    lemma_keywords_differ();
    let args = toks.drop_first();
    assert forall|i: int| 0 <= i < args.len() implies is_float_literal(#[trigger] args[i]) by {
        assert(args[i] == toks[i + 1]);
    }
    assert(position_record(args)->0 == seq![toks[1], toks[2], toks[3], one_text()]);
}

/// A position line `v x y z w` stores the record `(x, y, z, w)`: its fourth
/// component is the fourth token exactly.
pub proof fn lemma_position_w_is_fourth_token(st: LoaderState, toks: Seq<Seq<char>>)
    requires
        toks.len() == 5,
        toks[0] == "v"@,
        forall|i: int| 1 <= i < 5 ==> is_float_literal(#[trigger] toks[i]),
    ensures
        geometry_line(st, toks) is Ok,
        geometry_line(st, toks)->Ok_0.0.pool.positions == st.pool.positions.push(
            seq![toks[1], toks[2], toks[3], toks[4]],
        ),
        geometry_line(st, toks)->Ok_0.0.pool.positions.last()[3] == toks[4],
{
    lemma_keywords_differ();
    let args = toks.drop_first();
    assert forall|i: int| 0 <= i < args.len() implies is_float_literal(#[trigger] args[i]) by {
        assert(args[i] == toks[i + 1]);
    }
    assert(position_record(args)->0 == seq![toks[1], toks[2], toks[3], toks[4]]);
}

/// A `g` line flushes exactly one mesh (the pending faces, under the old
/// group name and the current material) when faces are pending, and flushes
/// nothing when none are; either way the new group has no pending faces.
pub proof fn lemma_group_flushes_pending_faces(st: LoaderState, toks: Seq<Seq<char>>)
    requires
        toks.len() > 0,
        toks[0] == "g"@,
    ensures
        geometry_line(st, toks) is Ok,
        geometry_line(st, toks)->Ok_0.1 is None,
        geometry_line(st, toks)->Ok_0.0.group_name == rest_text(toks),
        geometry_line(st, toks)->Ok_0.0.faces.len() == 0,
        st.faces.len() > 0 ==> geometry_line(st, toks)->Ok_0.0.meshes == st.meshes.push(
            MeshView { name: st.group_name, material: st.current_material, vertices: st.faces },
        ),
        st.faces.len() == 0 ==> geometry_line(st, toks)->Ok_0.0.meshes == st.meshes,
{
    lemma_keywords_differ();
}

proof fn lemma_name_index(ms: Seq<MaterialView>, name: Seq<char>, i: int)
    requires
        0 <= i <= ms.len(),
    ensures
        i <= name_index(ms, name, i) <= ms.len(),
        name_index(ms, name, i) < ms.len() ==> ms[name_index(ms, name, i)].name == name,
        name_index(ms, name, i) == ms.len() ==> forall|j: int|
            i <= j < ms.len() ==> (#[trigger] ms[j]).name != name,
        forall|j: int| i <= j < name_index(ms, name, i) ==> (#[trigger] ms[j]).name != name,
    decreases ms.len() - i,
{
    if i < ms.len() && ms[i].name != name {
        lemma_name_index(ms, name, i + 1);
    }
}

proof fn lemma_name_index_is(ms: Seq<MaterialView>, name: Seq<char>, k: int, i: int)
    requires
        0 <= i <= k <= ms.len(),
        k < ms.len() ==> ms[k].name == name,
        forall|j: int| 0 <= j < k ==> (#[trigger] ms[j]).name != name,
    ensures
        name_index(ms, name, i) == k,
    decreases k - i,
{
    if i < k {
        lemma_name_index_is(ms, name, k, i + 1);
    }
}

/// A later material wins: once a library's materials are stored, the
/// material stored under the name of its last one is that last one.
pub proof fn lemma_last_material_wins(ms: Seq<MaterialView>, new: Seq<MaterialView>)
    requires
        new.len() > 0,
    ensures
        ({
            let r = merge_materials(ms, new);
            let k = name_index(r, new.last().name, 0);
            k < r.len() && r[k] == new.last()
        }),
{
    let prev = merge_materials(ms, new.drop_last());
    let m = new.last();
    lemma_name_index(prev, m.name, 0);
    let k = name_index(prev, m.name, 0);
    let r = merge_materials(ms, new);
    assert(r == insert_material(prev, m));
    if k < prev.len() {
        assert forall|j: int| 0 <= j < k implies (#[trigger] r[j]).name != m.name by {
            assert(r[j] == prev[j]);
        }
        lemma_name_index_is(r, m.name, k, 0);
    } else {
        assert forall|j: int| 0 <= j < prev.len() implies (#[trigger] r[j]).name != m.name by {
            assert(r[j] == prev[j]);
        }
        lemma_name_index_is(r, m.name, prev.len() as int, 0);
    }
}

/// Storing materials keeps names unique: a collection with one material per
/// name still has one per name after a library's materials are stored.
pub proof fn lemma_merge_keeps_names_unique(ms: Seq<MaterialView>, new: Seq<MaterialView>)
    requires
        names_unique(ms),
    ensures
        names_unique(merge_materials(ms, new)),
    decreases new.len(),
{
    if new.len() > 0 {
        let prev = merge_materials(ms, new.drop_last());
        lemma_merge_keeps_names_unique(ms, new.drop_last());
        let m = new.last();
        lemma_name_index(prev, m.name, 0);
        let k = name_index(prev, m.name, 0);
        let next = merge_materials(ms, new);
        assert(next == insert_material(prev, m));
        if k < prev.len() {
            assert forall|i: int, j: int|
                0 <= i < next.len() && 0 <= j < next.len() && i != j implies next[i].name
                != next[j].name by {
                if i == k {
                    assert(prev[j].name != prev[k].name);
                } else if j == k {
                    assert(prev[i].name != prev[k].name);
                } else {
                    assert(prev[i].name != prev[j].name);
                }
            }
        } else {
            assert forall|i: int, j: int|
                0 <= i < next.len() && 0 <= j < next.len() && i != j implies next[i].name
                != next[j].name by {
                if i == prev.len() {
                    assert(prev[j].name != m.name);
                } else if j == prev.len() {
                    assert(prev[i].name != m.name);
                } else {
                    assert(prev[i].name != prev[j].name);
                }
            }
        }
    }
}

} // verus!
