//! The model loader: a scene document flattened into draw buffers.
//!
//! A document holds objects; an object holds its positions, its normals and
//! its geometry; the geometry holds primitives that refer to positions by
//! their place in the object. Loading puts every object's positions, normals
//! and triangle corners behind one another, in document order, unchanged but
//! for the corners, which are narrowed to sixteen bits.

use crate::flatten::{
    lemma_flat_map_concat,
    lemma_flat_map_part,
    lemma_flat_map_step,
    lemma_flat_map_whole,
};
use crate::vertex::{Index, Normal, Vertex};
use vstd::prelude::*;

verus! {

/// Anything an entity of a scene can refer to.
pub trait Resource {

}

/// A primitive of a mesh, by the positions it joins.
#[derive(Clone, Copy, Debug, PartialEq, Eq, Structural)]
pub enum Shape {
    Point(usize),
    Line(usize, usize),
    Triangle(usize, usize, usize),
}

/// A run of primitives of one mesh.
#[derive(Debug)]
pub enum PrimitiveElement {
    /// Primitives of any kind.
    Polylist(Vec<Shape>),
    /// Triangles, each by its three corners.
    Triangles(Vec<(usize, usize, usize)>),
}

/// The primitives that make up the surface of an object.
#[derive(Debug)]
pub struct Geometry {
    pub mesh: Vec<PrimitiveElement>,
}

/// One mesh of a document.
#[derive(Debug)]
pub struct Object {
    pub vertices: Vec<Vertex>,
    pub normals: Vec<Normal>,
    pub geometry: Vec<Geometry>,
}

/// The geometry of a scene document, in document order.
#[derive(Debug)]
pub struct Document {
    pub objects: Vec<Object>,
}

/// The three draw buffers of a model.
#[derive(Debug)]
pub struct Mesh {
    pub vertices: Vec<Vertex>,
    pub normals: Vec<Normal>,
    pub indices: Vec<Index>,
}

/// Why a document gives no mesh.
#[derive(Clone, Copy, Debug, PartialEq, Eq, Structural)]
pub enum LoadError {
    /// Some primitive of the document is not a triangle.
    NonTriangle,
}

/// A position's place as the index buffer holds it: its low sixteen bits.
pub open spec fn narrow(position: usize) -> Index {
    (position % 0x1_0000) as Index
}

/// What a primitive adds to the index buffer: the corners of a triangle,
/// nothing for any other primitive.
pub open spec fn shape_indices(shape: Shape) -> Seq<Index> {
    match shape {
        Shape::Triangle(a, b, c) => seq![narrow(a), narrow(b), narrow(c)],
        _ => Seq::empty(),
    }
}

/// The index buffer for a run of primitives.
pub open spec fn indices_of(shapes: Seq<Shape>) -> Seq<Index> {
    shapes.flat_map(|s: Shape| shape_indices(s))
}

/// Whether every primitive of a run is a triangle.
pub open spec fn all_triangles(shapes: Seq<Shape>) -> bool {
    forall|i: int| 0 <= i < shapes.len() ==> #[trigger] shapes[i] is Triangle
}

/// The triangle with these corners.
pub open spec fn triangle(corners: (usize, usize, usize)) -> Shape {
    Shape::Triangle(corners.0, corners.1, corners.2)
}

/// The primitives of an element, in their order.
pub open spec fn element_shapes(element: PrimitiveElement) -> Seq<Shape> {
    match element {
        PrimitiveElement::Polylist(shapes) => shapes@,
        PrimitiveElement::Triangles(list) => list@.map_values(
            |corners: (usize, usize, usize)| triangle(corners),
        ),
    }
}

/// The primitives of a geometry, element after element.
pub open spec fn geometry_shapes(geometry: Geometry) -> Seq<Shape> {
    geometry.mesh@.flat_map(|e: PrimitiveElement| element_shapes(e))
}

/// The primitives of an object, geometry after geometry.
pub open spec fn object_shapes(object: Object) -> Seq<Shape> {
    object.geometry@.flat_map(|g: Geometry| geometry_shapes(g))
}

impl Document {
    /// Every position of the document, object after object.
    pub open spec fn positions(&self) -> Seq<Vertex> {
        self.objects@.flat_map(|o: Object| o.vertices@)
    }

    /// Every normal of the document, object after object.
    pub open spec fn normal_vectors(&self) -> Seq<Normal> {
        self.objects@.flat_map(|o: Object| o.normals@)
    }

    /// Every primitive of the document, object after object.
    pub open spec fn shapes(&self) -> Seq<Shape> {
        self.objects@.flat_map(|o: Object| object_shapes(o))
    }

    /// Whether every primitive of the document is a triangle.
    pub open spec fn triangulated(&self) -> bool {
        all_triangles(self.shapes())
    }

    /// The corners of every primitive of the document, in document order.
    pub open spec fn triangle_indices(&self) -> Seq<Index> {
        indices_of(self.shapes())
    }
}

/// Models that can hand their geometry over as flat buffers.
pub trait ModelData: Resource {
    /// The positions the model holds, in the order they are handed out.
    spec fn model_positions(&self) -> Seq<Vertex>;

    /// The normals the model holds, in the order they are handed out.
    spec fn model_normals(&self) -> Seq<Normal>;

    /// Whether the model is made of triangles only.
    spec fn model_triangulated(&self) -> bool;

    /// The corners of the model's triangles, three to a triangle.
    spec fn model_indices(&self) -> Seq<Index>;

    fn vertices(&self) -> (buffer: Box<Vec<Vertex>>)
        ensures
            buffer@ == self.model_positions(),
    ;

    fn normals(&self) -> (buffer: Box<Vec<Normal>>)
        ensures
            buffer@ == self.model_normals(),
    ;

    fn indices(&self) -> (buffer: Box<Vec<Index>>)
        requires
            self.model_triangulated(),
        ensures
            buffer@ == self.model_indices(),
            buffer@.len() % 3 == 0,
    ;
}

/// A run of triangles gives three indices for each of them, so the length
/// of its index buffer is a multiple of three.
pub proof fn lemma_index_count(shapes: Seq<Shape>)
    requires
        all_triangles(shapes),
    ensures
        indices_of(shapes).len() == 3 * shapes.len(),
        indices_of(shapes).len() % 3 == 0,
    decreases shapes.len(),
{
    let f = |s: Shape| shape_indices(s);
    lemma_flat_map_whole(shapes, f);
    if shapes.len() > 0 {
        let n = shapes.len() - 1;
        lemma_index_count(shapes.take(n));
        lemma_flat_map_step(shapes, f, n);
    }
}

/// The index buffer of two runs of primitives, one after the other.
proof fn lemma_indices_concat(front: Seq<Shape>, back: Seq<Shape>)
    ensures
        indices_of(front + back) == indices_of(front) + indices_of(back),
{
    lemma_flat_map_concat(front, back, |s: Shape| shape_indices(s));
}

/// Two runs are of triangles only if and only if both together are.
proof fn lemma_triangles_concat(front: Seq<Shape>, back: Seq<Shape>)
    ensures
        all_triangles(front + back) == (all_triangles(front) && all_triangles(back)),
{
    let whole = front + back;
    if all_triangles(whole) {
        assert forall|i: int| 0 <= i < front.len() implies #[trigger] front[i] is Triangle by {
            assert(whole[i] is Triangle);
        }
        assert forall|i: int| 0 <= i < back.len() implies #[trigger] back[i] is Triangle by {
            assert(whole[front.len() + i] is Triangle);
        }
    }
}

/// Where the parts of a whole are all of triangles, so is each part.
proof fn lemma_triangles_part<A>(parts: Seq<A>, f: spec_fn(A) -> Seq<Shape>, i: int)
    requires
        0 <= i < parts.len(),
    ensures
        all_triangles(parts.flat_map(f)) ==> all_triangles(f(parts[i])),
{
    lemma_flat_map_part(parts, f, i);
    lemma_triangles_concat(parts.take(i).flat_map(f) + f(parts[i]), parts.skip(i + 1).flat_map(f));
    lemma_triangles_concat(parts.take(i).flat_map(f), f(parts[i]));
}

/// One more part adds its primitives to the run, and their corners to the
/// index buffer.
proof fn lemma_shapes_step<A>(parts: Seq<A>, f: spec_fn(A) -> Seq<Shape>, i: int)
    requires
        0 <= i < parts.len(),
    ensures
        indices_of(parts.take(i + 1).flat_map(f)) == indices_of(parts.take(i).flat_map(f))
            + indices_of(f(parts[i])),
        all_triangles(parts.take(i + 1).flat_map(f)) == (all_triangles(parts.take(i).flat_map(f))
            && all_triangles(f(parts[i]))),
{
    lemma_flat_map_step(parts, f, i);
    lemma_indices_concat(parts.take(i).flat_map(f), f(parts[i]));
    lemma_triangles_concat(parts.take(i).flat_map(f), f(parts[i]));
}

fn narrow_index(position: usize) -> (index: Index)
    ensures
        index == narrow(position),
{
    (position % 0x1_0000) as Index
}

fn append_all<T: Copy>(out: &mut Vec<T>, items: &Vec<T>)
    ensures
        final(out)@ == old(out)@ + items@,
{
    let n = items.len();
    let mut i: usize = 0;
    while i < n
        invariant
            n == items@.len(),
            i <= n,
            out@ == old(out)@ + items@.take(i as int),
        decreases n - i,
    {
        out.push(items[i]);
        i = i + 1;
    }
}

fn push_shapes(out: &mut Vec<Index>, shapes: &Vec<Shape>)
    requires
        all_triangles(shapes@),
    ensures
        final(out)@ == old(out)@ + indices_of(shapes@),
{
    let ghost f = |s: Shape| shape_indices(s);
    let n = shapes.len();
    let mut i: usize = 0;
    while i < n
        invariant
            n == shapes@.len(),
            i <= n,
            all_triangles(shapes@),
            f == |s: Shape| shape_indices(s),
            out@ == old(out)@ + shapes@.take(i as int).flat_map(f),
        decreases n - i,
    {
        proof {
            lemma_flat_map_step(shapes@, f, i as int);
        }
        match shapes[i] {
            Shape::Triangle(a, b, c) => {
                out.push(narrow_index(a));
                out.push(narrow_index(b));
                out.push(narrow_index(c));
            },
            _ => {},
        }
        i = i + 1;
    }
    proof {
        lemma_flat_map_whole(shapes@, f);
    }
}

fn push_triangles(out: &mut Vec<Index>, list: &Vec<(usize, usize, usize)>)
    ensures
        final(out)@ == old(out)@ + indices_of(
            list@.map_values(|corners: (usize, usize, usize)| triangle(corners)),
        ),
{
    let ghost f = |s: Shape| shape_indices(s);
    let ghost shapes = list@.map_values(|corners: (usize, usize, usize)| triangle(corners));
    let n = list.len();
    let mut i: usize = 0;
    while i < n
        invariant
            n == list@.len(),
            i <= n,
            shapes == list@.map_values(|corners: (usize, usize, usize)| triangle(corners)),
            f == |s: Shape| shape_indices(s),
            out@ == old(out)@ + shapes.take(i as int).flat_map(f),
        decreases n - i,
    {
        proof {
            lemma_flat_map_step(shapes, f, i as int);
        }
        let (a, b, c) = list[i];
        out.push(narrow_index(a));
        out.push(narrow_index(b));
        out.push(narrow_index(c));
        i = i + 1;
    }
    proof {
        lemma_flat_map_whole(shapes, f);
    }
}

fn push_element(out: &mut Vec<Index>, element: &PrimitiveElement)
    requires
        all_triangles(element_shapes(*element)),
    ensures
        final(out)@ == old(out)@ + indices_of(element_shapes(*element)),
{
    match element {
        PrimitiveElement::Polylist(shapes) => push_shapes(out, shapes),
        PrimitiveElement::Triangles(list) => push_triangles(out, list),
    }
}

fn push_geometry(out: &mut Vec<Index>, geometry: &Geometry)
    requires
        all_triangles(geometry_shapes(*geometry)),
    ensures
        final(out)@ == old(out)@ + indices_of(geometry_shapes(*geometry)),
{
    let ghost f = |e: PrimitiveElement| element_shapes(e);
    let n = geometry.mesh.len();
    let mut i: usize = 0;
    while i < n
        invariant
            n == geometry.mesh@.len(),
            i <= n,
            f == |e: PrimitiveElement| element_shapes(e),
            all_triangles(geometry.mesh@.flat_map(f)),
            out@ == old(out)@ + indices_of(geometry.mesh@.take(i as int).flat_map(f)),
        decreases n - i,
    {
        proof {
            lemma_shapes_step(geometry.mesh@, f, i as int);
            lemma_triangles_part(geometry.mesh@, f, i as int);
        }
        push_element(out, &geometry.mesh[i]);
        i = i + 1;
    }
    proof {
        lemma_flat_map_whole(geometry.mesh@, f);
    }
}

fn push_object(out: &mut Vec<Index>, object: &Object)
    requires
        all_triangles(object_shapes(*object)),
    ensures
        final(out)@ == old(out)@ + indices_of(object_shapes(*object)),
{
    let ghost f = |g: Geometry| geometry_shapes(g);
    let n = object.geometry.len();
    let mut i: usize = 0;
    while i < n
        invariant
            n == object.geometry@.len(),
            i <= n,
            f == |g: Geometry| geometry_shapes(g),
            all_triangles(object.geometry@.flat_map(f)),
            out@ == old(out)@ + indices_of(object.geometry@.take(i as int).flat_map(f)),
        decreases n - i,
    {
        proof {
            lemma_shapes_step(object.geometry@, f, i as int);
            lemma_triangles_part(object.geometry@, f, i as int);
        }
        push_geometry(out, &object.geometry[i]);
        i = i + 1;
    }
    proof {
        lemma_flat_map_whole(object.geometry@, f);
    }
}

fn shapes_are_triangles(shapes: &Vec<Shape>) -> (yes: bool)
    ensures
        yes == all_triangles(shapes@),
{
    let n = shapes.len();
    let mut i: usize = 0;
    while i < n
        invariant
            n == shapes@.len(),
            i <= n,
            forall|k: int| 0 <= k < i ==> #[trigger] shapes@[k] is Triangle,
        decreases n - i,
    {
        match shapes[i] {
            Shape::Triangle(_, _, _) => {},
            _ => {
                return false;
            },
        }
        i = i + 1;
    }
    true
}

fn element_is_triangulated(element: &PrimitiveElement) -> (yes: bool)
    ensures
        yes == all_triangles(element_shapes(*element)),
{
    match element {
        PrimitiveElement::Polylist(shapes) => shapes_are_triangles(shapes),
        PrimitiveElement::Triangles(_) => true,
    }
}

fn geometry_is_triangulated(geometry: &Geometry) -> (yes: bool)
    ensures
        yes == all_triangles(geometry_shapes(*geometry)),
{
    let ghost f = |e: PrimitiveElement| element_shapes(e);
    let n = geometry.mesh.len();
    let mut i: usize = 0;
    while i < n
        invariant
            n == geometry.mesh@.len(),
            i <= n,
            f == |e: PrimitiveElement| element_shapes(e),
            all_triangles(geometry.mesh@.take(i as int).flat_map(f)),
        decreases n - i,
    {
        proof {
            lemma_shapes_step(geometry.mesh@, f, i as int);
            lemma_triangles_part(geometry.mesh@, f, i as int);
        }
        if !element_is_triangulated(&geometry.mesh[i]) {
            return false;
        }
        i = i + 1;
    }
    proof {
        lemma_flat_map_whole(geometry.mesh@, f);
    }
    true
}

fn object_is_triangulated(object: &Object) -> (yes: bool)
    ensures
        yes == all_triangles(object_shapes(*object)),
{
    let ghost f = |g: Geometry| geometry_shapes(g);
    let n = object.geometry.len();
    let mut i: usize = 0;
    while i < n
        invariant
            n == object.geometry@.len(),
            i <= n,
            f == |g: Geometry| geometry_shapes(g),
            all_triangles(object.geometry@.take(i as int).flat_map(f)),
        decreases n - i,
    {
        proof {
            lemma_shapes_step(object.geometry@, f, i as int);
            lemma_triangles_part(object.geometry@, f, i as int);
        }
        if !geometry_is_triangulated(&object.geometry[i]) {
            return false;
        }
        i = i + 1;
    }
    proof {
        lemma_flat_map_whole(object.geometry@, f);
    }
    true
}

impl Document {
    /// Tells whether every primitive of the document is a triangle.
    pub fn is_triangulated(&self) -> (yes: bool)
        ensures
            yes == self.triangulated(),
    {
        let ghost f = |o: Object| object_shapes(o);
        let n = self.objects.len();
        let mut i: usize = 0;
        while i < n
            invariant
                n == self.objects@.len(),
                i <= n,
                f == |o: Object| object_shapes(o),
                all_triangles(self.objects@.take(i as int).flat_map(f)),
            decreases n - i,
        {
            proof {
                lemma_shapes_step(self.objects@, f, i as int);
                lemma_triangles_part(self.objects@, f, i as int);
            }
            if !object_is_triangulated(&self.objects[i]) {
                return false;
            }
            i = i + 1;
        }
        proof {
            lemma_flat_map_whole(self.objects@, f);
        }
        true
    }

    /// Flattens the document into its three draw buffers, or refuses it as a
    /// whole where some primitive is not a triangle.
    pub fn load(&self) -> (outcome: Result<Mesh, LoadError>)
        ensures
            self.triangulated() ==> outcome is Ok,
            !self.triangulated() ==> outcome == Err::<Mesh, LoadError>(LoadError::NonTriangle),
            outcome matches Ok(mesh) ==> {
                &&& mesh.vertices@ == self.positions()
                &&& mesh.normals@ == self.normal_vectors()
                &&& mesh.indices@ == self.triangle_indices()
                &&& mesh.indices@.len() == 3 * self.shapes().len()
            },
    {
        if !self.is_triangulated() {
            return Err(LoadError::NonTriangle);
        }
        let vertices = self.vertices();
        let normals = self.normals();
        let indices = self.indices();
        proof {
            lemma_index_count(self.shapes());
        }
        Ok(Mesh { vertices: *vertices, normals: *normals, indices: *indices })
    }
}

impl Resource for Document {

}

impl ModelData for Document {
    open spec fn model_positions(&self) -> Seq<Vertex> {
        self.positions()
    }

    open spec fn model_normals(&self) -> Seq<Normal> {
        self.normal_vectors()
    }

    open spec fn model_triangulated(&self) -> bool {
        self.triangulated()
    }

    open spec fn model_indices(&self) -> Seq<Index> {
        self.triangle_indices()
    }

    /// The positions of every object, in document order.
    fn vertices(&self) -> (buffer: Box<Vec<Vertex>>) {
        let ghost f = |o: Object| o.vertices@;
        let mut out: Vec<Vertex> = Vec::new();
        let n = self.objects.len();
        let mut i: usize = 0;
        while i < n
            invariant
                n == self.objects@.len(),
                i <= n,
                f == |o: Object| o.vertices@,
                out@ == self.objects@.take(i as int).flat_map(f),
            decreases n - i,
        {
            proof {
                lemma_flat_map_step(self.objects@, f, i as int);
            }
            append_all(&mut out, &self.objects[i].vertices);
            i = i + 1;
        }
        proof {
            lemma_flat_map_whole(self.objects@, f);
        }
        Box::new(out)
    }

    /// The normals of every object, in document order.
    fn normals(&self) -> (buffer: Box<Vec<Normal>>) {
        let ghost f = |o: Object| o.normals@;
        let mut out: Vec<Normal> = Vec::new();
        let n = self.objects.len();
        let mut i: usize = 0;
        while i < n
            invariant
                n == self.objects@.len(),
                i <= n,
                f == |o: Object| o.normals@,
                out@ == self.objects@.take(i as int).flat_map(f),
            decreases n - i,
        {
            proof {
                lemma_flat_map_step(self.objects@, f, i as int);
            }
            append_all(&mut out, &self.objects[i].normals);
            i = i + 1;
        }
        proof {
            lemma_flat_map_whole(self.objects@, f);
        }
        Box::new(out)
    }

    /// The corners of every triangle, in document order, each narrowed to
    /// sixteen bits.
    fn indices(&self) -> (buffer: Box<Vec<Index>>) {
        let ghost f = |o: Object| object_shapes(o);
        let mut out: Vec<Index> = Vec::new();
        let n = self.objects.len();
        let mut i: usize = 0;
        while i < n
            invariant
                n == self.objects@.len(),
                i <= n,
                f == |o: Object| object_shapes(o),
                all_triangles(self.objects@.flat_map(f)),
                out@ == indices_of(self.objects@.take(i as int).flat_map(f)),
            decreases n - i,
        {
            proof {
                lemma_shapes_step(self.objects@, f, i as int);
                lemma_triangles_part(self.objects@, f, i as int);
            }
            push_object(&mut out, &self.objects[i]);
            i = i + 1;
        }
        proof {
            lemma_flat_map_whole(self.objects@, f);
            lemma_index_count(self.shapes());
        }
        Box::new(out)
    }
}

} // verus!
