use collada::document::ColladaDocument;
use renderer::resource::{Document, Geometry, LoadError, Object, PrimitiveElement, Shape};
use renderer::vertex::{Normal, Vertex};

fn parsed_shape(shape: &collada::Shape) -> Shape {
    match *shape {
        collada::Shape::Point(a) => Shape::Point(a.0),
        collada::Shape::Line(a, b) => Shape::Line(a.0, b.0),
        collada::Shape::Triangle(a, b, c) => Shape::Triangle(a.0, b.0, c.0),
    }
}

fn parsed_element(element: &collada::PrimitiveElement) -> PrimitiveElement {
    match element {
        collada::PrimitiveElement::Polylist(polylist) => {
            PrimitiveElement::Polylist(polylist.shapes.iter().map(parsed_shape).collect())
        }
        collada::PrimitiveElement::Triangles(triangles) => PrimitiveElement::Triangles(
            triangles.vertices.iter().map(|&(a, b, c)| (a.0, b.0, c.0)).collect(),
        ),
    }
}

fn parsed_document(text: &str) -> Document {
    let parsed = ColladaDocument::from_str(text).unwrap();
    let objects = parsed.get_obj_set().unwrap().objects;
    Document {
        objects: objects
            .iter()
            .map(|object| Object {
                vertices: object
                    .vertices
                    .iter()
                    .map(|v| Vertex {
                        x: (v.x as f32).to_bits(),
                        y: (v.y as f32).to_bits(),
                        z: (v.z as f32).to_bits(),
                    })
                    .collect(),
                normals: object
                    .normals
                    .iter()
                    .map(|n| Normal {
                        x: (n.x as f32).to_bits(),
                        y: (n.y as f32).to_bits(),
                        z: (n.z as f32).to_bits(),
                    })
                    .collect(),
                geometry: object
                    .geometry
                    .iter()
                    .map(|geometry| Geometry {
                        mesh: geometry.mesh.iter().map(parsed_element).collect(),
                    })
                    .collect(),
            })
            .collect(),
    }
}

fn scene(primitives: &str) -> String {
    format!(
        r##"<?xml version="1.0" encoding="utf-8"?>
<COLLADA xmlns="http://www.collada.org/2005/11/COLLADASchema" version="1.4.1">
  <library_geometries>
    <geometry id="Tri-mesh" name="Tri">
      <mesh>
        <source id="Tri-mesh-positions">
          <float_array id="Tri-mesh-positions-array" count="9">0 0 0 1 0 0 0 1.5 0</float_array>
        </source>
        <source id="Tri-mesh-normals">
          <float_array id="Tri-mesh-normals-array" count="9">0 0 1 0 0 1 0 0 1</float_array>
        </source>
        <vertices id="Tri-mesh-vertices">
          <input semantic="POSITION" source="#Tri-mesh-positions"/>
        </vertices>
        {}
      </mesh>
    </geometry>
  </library_geometries>
</COLLADA>"##,
        primitives
    )
}

#[test]
fn a_parsed_triangle_loads_into_three_buffers() {
    let text = scene(
        r##"<polylist count="1">
          <input semantic="VERTEX" source="#Tri-mesh-vertices" offset="0"/>
          <input semantic="NORMAL" source="#Tri-mesh-normals" offset="1"/>
          <vcount>3</vcount>
          <p>0 0 1 1 2 2</p>
        </polylist>"##,
    );
    let mesh = parsed_document(&text).load().unwrap();
    assert_eq!(mesh.vertices.len(), 3);
    assert_eq!(mesh.normals.len(), 3);
    assert_eq!(mesh.indices, vec![0u16, 1, 2]);
    let third = mesh.vertices[2];
    assert_eq!(
        [f32::from_bits(third.x), f32::from_bits(third.y), f32::from_bits(third.z)],
        [0.0, 1.5, 0.0]
    );
    let normal = mesh.normals[0];
    assert_eq!(
        [f32::from_bits(normal.x), f32::from_bits(normal.y), f32::from_bits(normal.z)],
        [0.0, 0.0, 1.0]
    );
}

#[test]
fn parsed_triangles_load_in_their_order() {
    let text = scene(
        r##"<triangles count="2">
          <input semantic="VERTEX" source="#Tri-mesh-vertices" offset="0"/>
          <input semantic="NORMAL" source="#Tri-mesh-normals" offset="1"/>
          <p>2 0 1 0 0 0 0 1 2 1 1 1</p>
        </triangles>"##,
    );
    let document = parsed_document(&text);
    assert!(document.is_triangulated());
    assert_eq!(document.load().unwrap().indices, vec![2u16, 1, 0, 0, 2, 1]);
}

#[test]
fn a_parsed_line_makes_loading_fail() {
    let text = scene(
        r##"<polylist count="2">
          <input semantic="VERTEX" source="#Tri-mesh-vertices" offset="0"/>
          <input semantic="NORMAL" source="#Tri-mesh-normals" offset="1"/>
          <vcount>3 2</vcount>
          <p>0 0 1 1 2 2 0 0 1 1</p>
        </polylist>"##,
    );
    let document = parsed_document(&text);
    assert!(!document.is_triangulated());
    assert_eq!(document.load().unwrap_err(), LoadError::NonTriangle);
}
