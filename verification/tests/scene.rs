use cgmath::{Deg, Matrix, Matrix4, SquareMatrix, Vector3 as V3, Vector4};
use mitsuba_rs::bsdf::{lookup_material, read_value_or_texture_spectrum};
use mitsuba_rs::props::{read_value, values};
use mitsuba_rs::events::{
    found_attrib, found_attrib_or, found_attrib_or_error, found_attrib_vec,
    match_value_or_defaults, skipping_entry,
};
use mitsuba_rs::{
    parse_scene, tokenize, Alpha, AreaEmitter, Attribute, BSDFColor, Channel, Dict, Directive,
    Emitter, Error, Event, Film, Medium, Number, PhaseFunction, Scene, Sensor, Shape, Spectrum,
    SunDirection, Texture, Transform, TransformOp, Value, Vector2, Vector3, WardVariant, BSDF,
};

fn read_files(files: &[(&str, &str)], name: &str, defaults: &mut Dict<String>, scene: &mut Scene) -> Result<(), Error> {
    let text = files.iter().find(|(n, _)| *n == name).expect("no such file").1;
    let events = tokenize(text.as_bytes());
    let mut pos: usize = 0;
    loop {
        match parse_scene(&events, &mut pos, defaults, scene)? {
            Directive::Done => return Ok(()),
            Directive::Include(other) => read_files(files, &other, defaults, scene)?,
        }
    }
}

fn read_document(xml: &str) -> Result<Scene, Error> {
    let mut defaults: Dict<String> = Dict::new();
    let mut scene = Scene::new();
    read_files(&[("main", xml)], "main", &mut defaults, &mut scene)?;
    Ok(scene)
}

fn num(n: &Number) -> f32 {
    n.text.parse::<f32>().unwrap()
}

fn vec3(v: &Vector3) -> V3<f32> {
    V3::new(num(&v.x), num(&v.y), num(&v.z))
}

fn matrix_of(t: &Transform) -> Matrix4<f32> {
    let mut m = Matrix4::identity();
    for op in &t.ops {
        let next = match op {
            TransformOp::Translate(v) => Matrix4::from_translation(vec3(v)),
            TransformOp::UniformScale(s) => Matrix4::from_scale(num(s)),
            TransformOp::Scale(v) => Matrix4::from_nonuniform_scale(num(&v.x), num(&v.y), num(&v.z)),
            TransformOp::Rotate { axis, angle } => Matrix4::from_axis_angle(vec3(axis), Deg(num(angle))),
            TransformOp::Matrix(e) => {
                let v: Vec<f32> = e.iter().map(num).collect();
                Matrix4::new(
                    v[0], v[1], v[2], v[3], v[4], v[5], v[6], v[7], v[8], v[9], v[10], v[11], v[12],
                    v[13], v[14], v[15],
                )
            }
            TransformOp::LookAt { .. } => panic!("not used here"),
        };
        m = m * next;
    }
    m
}

fn attr(name: &str, value: &str) -> Attribute {
    Attribute { name: name.to_string(), value: value.to_string() }
}

fn start(name: &str, attributes: Vec<Attribute>) -> Event {
    Event::Start { name: name.to_string(), attributes }
}

#[test]
fn tokenizer_gives_starts_ends_and_white_space() {
    let events = tokenize(b"<a x=\"1\" y='2'>\n  <b/>text</a>");
    assert_eq!(
        events,
        vec![
            Event::Other,
            start("a", vec![attr("x", "1"), attr("y", "2")]),
            Event::Whitespace,
            start("b", vec![]),
            Event::End,
            Event::Other,
            Event::End,
            Event::Other,
        ]
    );
}

#[test]
fn tokenizer_reports_what_is_no_document() {
    let events = tokenize(b"<a><b></a>");
    assert!(matches!(events.last(), Some(Event::Error(_))));
    match read_document("<scene><bsdf type=\"diffuse\" id=\"m\"></scene>") {
        Err(Error::XmlTokenizer(_)) => {}
        other => panic!("{:?}", other),
    }
}

#[test]
fn tokenizer_keeps_local_names() {
    let events = tokenize(b"<p:a xmlns:p=\"urn:x\" p:k=\"v\"/>");
    match &events[1] {
        Event::Start { name, attributes } => {
            assert_eq!(name, "a");
            assert!(attributes.contains(&attr("k", "v")));
        }
        other => panic!("{:?}", other),
    }
}

#[test]
fn diffuse_constant() {
    let scene = read_document(
        "<scene><bsdf type=\"diffuse\" id=\"m\"><rgb name=\"reflectance\" value=\"0.1,0.2,0.3\"/></bsdf></scene>",
    )
    .unwrap();
    assert_eq!(scene.bsdfs.len(), 1);
    match scene.bsdfs.get("m").unwrap() {
        BSDF::Diffuse { reflectance: BSDFColor::Constant(s) } => {
            assert_eq!(s.value, "0.1,0.2,0.3");
            let rgb = s.clone().as_rgb().unwrap();
            assert_eq!(rgb.r, Channel::Literal(Number::new("0.1")));
            assert_eq!(
                (num(&Number::new("0.1")), 0.2f32, 0.3f32),
                match (&rgb.r, &rgb.g, &rgb.b) {
                    (Channel::Literal(r), Channel::Literal(g), Channel::Literal(b)) => (num(r), num(g), num(b)),
                    other => panic!("{:?}", other),
                }
            );
        }
        other => panic!("{:?}", other),
    }
}

#[test]
fn texture_backed_reflectance() {
    let scene = read_document(
        "<scene>\
         <texture id=\"t\" type=\"bitmap\"><string name=\"filename\" value=\"a.png\"/></texture>\
         <bsdf type=\"diffuse\" id=\"m\"><ref name=\"reflectance\" id=\"t\"/></bsdf>\
         </scene>",
    )
    .unwrap();
    let expected = Texture::Bitmap {
        filename: "a.png".to_string(),
        filter_type: "trilinear".to_string(),
        gamma: Number::new("1"),
        offset: Vector2 { x: Number::new("0"), y: Number::new("0") },
        scale: Vector2 { x: Number::new("1"), y: Number::new("1") },
    };
    assert_eq!(scene.textures.get("t"), Some(&expected));
    assert_eq!(
        scene.bsdfs.get("m"),
        Some(&BSDF::Diffuse { reflectance: BSDFColor::Texture(expected) })
    );
}

#[test]
fn reference_to_an_undeclared_texture_is_refused() {
    match read_document("<scene><bsdf type=\"diffuse\" id=\"m\"><ref name=\"reflectance\" id=\"t\"/></bsdf></scene>") {
        Err(Error::UnresolvedReference(id)) => assert_eq!(id, "t"),
        other => panic!("{:?}", other),
    }
}

#[test]
fn forward_reference_is_refused() {
    let r = read_document(
        "<scene>\
         <bsdf type=\"diffuse\" id=\"m\"><ref name=\"reflectance\" id=\"t\"/></bsdf>\
         <texture id=\"t\" type=\"checkerboard\"/>\
         </scene>",
    );
    assert!(matches!(r, Err(Error::UnresolvedReference(_))));
}

#[test]
fn transform_composition() {
    let scene = read_document(
        "<scene><emitter type=\"collimated\"><spectrum name=\"power\" value=\"1\"/>\
         <transform name=\"toWorld\"><translate x=\"1\"/><scale value=\"2\"/></transform>\
         </emitter></scene>",
    )
    .unwrap();
    let t = match &scene.emitters[0] {
        Emitter::Collimated { to_world, .. } => to_world,
        other => panic!("{:?}", other),
    };
    assert_eq!(
        t.ops,
        vec![
            TransformOp::Translate(Vector3::new("1", "0.0", "0.0")),
            TransformOp::UniformScale(Number::new("2")),
        ]
    );
    let m = matrix_of(t);
    let a = m * Vector4::new(0.0, 0.0, 0.0, 1.0);
    let b = m * Vector4::new(1.0, 0.0, 0.0, 1.0);
    assert_eq!((a.x, a.w), (1.0, 1.0));
    assert_eq!((b.x, b.w), (3.0, 1.0));
    assert_eq!(m.transpose().transpose(), m);
}

#[test]
fn empty_transform_is_the_identity() {
    let events = tokenize(b"<transform name=\"toWorld\"> </transform>");
    let mut pos: usize = 2;
    let defaults: Dict<String> = Dict::new();
    let t = Transform::parse(&events, &mut pos, &defaults).unwrap();
    assert!(t.ops.is_empty());
    assert_eq!(t, Transform::identity());
    assert_eq!(matrix_of(&t), Matrix4::identity());
    assert_eq!(pos, 4);
}

#[test]
fn primitives_of_a_transform() {
    let events = tokenize(
        b"<transform>\
          <scale x=\"2\" z=\"4\"/>\
          <rotate y=\"1\" angle=\"90\"/>\
          <matrix value=\"1 0 0 5  0 1 0 6  0 0 1 7  0 0 0 1\"/>\
          <lookat origin=\"0, 0, 5\" target=\"0,0,0\" up=\"0, 1, 0\"/>\
          <lookAt origin=\"1,2,3\" target=\"4,5,6\" up=\"0,0,1\"/>\
          </transform>",
    );
    let mut pos: usize = 2;
    let defaults: Dict<String> = Dict::new();
    let t = Transform::parse(&events, &mut pos, &defaults).unwrap();
    assert_eq!(t.ops.len(), 5);
    assert_eq!(t.ops[0], TransformOp::Scale(Vector3::new("2", "1.0", "4")));
    assert_eq!(
        t.ops[1],
        TransformOp::Rotate { axis: Vector3::new("0.0", "1", "0.0"), angle: Number::new("90") }
    );
    match &t.ops[2] {
        TransformOp::Matrix(e) => {
            let v: Vec<f32> = e.iter().map(num).collect();
            assert_eq!(v, vec![1., 0., 0., 5., 0., 1., 0., 6., 0., 0., 1., 7., 0., 0., 0., 1.]);
        }
        other => panic!("{:?}", other),
    }
    assert_eq!(
        t.ops[3],
        TransformOp::LookAt {
            origin: Vector3::new("0", "0", "5"),
            target: Vector3::new("0", "0", "0"),
            up: Vector3::new("0", "1", "0"),
        }
    );
}

#[test]
fn malformed_primitives_are_refused() {
    let defaults: Dict<String> = Dict::new();
    let cases: [(&[u8], &str); 5] = [
        (b"<transform><shear/></transform>", "variant"),
        (b"<transform><rotate x=\"1\"/></transform>", "missing"),
        (b"<transform><matrix value=\"1 2 3\"/></transform>", "mismatch"),
        (b"<transform><translate x=\"one\"/></transform>", "mismatch"),
        (b"<transform><lookat origin=\"0,0\" target=\"0,0,0\" up=\"0,1,0\"/></transform>", "mismatch"),
    ];
    for (doc, kind) in cases {
        let events = tokenize(doc);
        let mut pos: usize = 2;
        let r = Transform::parse(&events, &mut pos, &defaults);
        match (kind, r) {
            ("variant", Err(Error::UnknownVariant(k, v))) => {
                assert_eq!(k, "transform");
                assert_eq!(v, "shear");
            }
            ("missing", Err(Error::MissingAttribute(a, c))) => {
                assert_eq!(a, "angle");
                assert_eq!(c, "rotate");
            }
            ("mismatch", Err(Error::ValueMismatch(_, _))) => {}
            (_, other) => panic!("{:?}", other),
        }
    }
}

#[test]
fn conductor_material_lookup() {
    let scene = read_document(
        "<scene><bsdf type=\"conductor\" id=\"c\"><string name=\"material\" value=\"Au\"/></bsdf></scene>",
    )
    .unwrap();
    match scene.bsdfs.get("c").unwrap() {
        BSDF::Conductor { distribution, eta, k, ext_eta, specular_reflectance } => {
            assert!(distribution.is_none());
            assert_eq!(eta, &Spectrum::new("0.143552, 0.377438, 1.43825"));
            assert_eq!(k, &Spectrum::new("3.98397, 2.38495, 1.60434"));
            assert_eq!(num(ext_eta), 1.000277);
            assert_eq!(specular_reflectance, &BSDFColor::Constant(Spectrum::new("1")));
        }
        other => panic!("{:?}", other),
    }
}

#[test]
fn conductor_defaults_to_copper_and_takes_overrides() {
    let scene = read_document(
        "<scene>\
         <bsdf type=\"conductor\" id=\"a\"/>\
         <bsdf type=\"roughconductor\" id=\"b\"><spectrum name=\"eta\" value=\"1,2,3\"/><float name=\"alpha\" value=\"0.3\"/></bsdf>\
         </scene>",
    )
    .unwrap();
    match scene.bsdfs.get("a").unwrap() {
        BSDF::Conductor { eta, k, .. } => {
            assert_eq!(eta.value, "0.208084, 0.919438, 1.10263");
            assert_eq!(k.value, "3.92329, 2.45611, 2.14264");
        }
        other => panic!("{:?}", other),
    }
    match scene.bsdfs.get("b").unwrap() {
        BSDF::Conductor { distribution: Some(d), eta, k, .. } => {
            assert_eq!(d.distribution, "beckmann");
            assert_eq!(d.alpha, Alpha::Isotropic(BSDFColor::Constant(Number::new("0.3"))));
            assert_eq!(eta.value, "1,2,3");
            assert_eq!(k.value, "3.92329, 2.45611, 2.14264");
        }
        other => panic!("{:?}", other),
    }
    let (eta, k) = lookup_material("none").unwrap();
    assert_eq!((eta.value.as_str(), k.value.as_str()), ("0.0, 0.0, 0.0", "1.0, 1.0, 1.0"));
    assert!(lookup_material("Unobtainium").is_none());
    match read_document("<scene><bsdf type=\"conductor\" id=\"a\"><string name=\"material\" value=\"Xx\"/></bsdf></scene>") {
        Err(Error::UnknownVariant(kind, name)) => {
            assert_eq!(kind, "material");
            assert_eq!(name, "Xx");
        }
        other => panic!("{:?}", other),
    }
}

#[test]
fn include_with_defaults() {
    let files = [
        ("main.xml", "<scene><default name=\"res\" value=\"256\"/><include filename=\"sub.xml\"/></scene>"),
        (
            "sub.xml",
            "<scene><sensor type=\"perspective\"><float name=\"fov\" value=\"45\"/>\
             <film type=\"hdrfilm\"><integer name=\"width\" value=\"$res\"/><integer name=\"height\" value=\"$res\"/></film>\
             </sensor></scene>",
        ),
    ];
    let mut defaults: Dict<String> = Dict::new();
    let mut scene = Scene::new();
    read_files(&files, "main.xml", &mut defaults, &mut scene).unwrap();
    assert_eq!(scene.sensors.len(), 1);
    assert_eq!(scene.sensors[0].film, Film { height: 256, width: 256 });
    assert_eq!(num(&scene.sensors[0].fov), 45.0);
}

#[test]
fn default_of_an_included_file_is_seen_behind_the_include() {
    let files = [
        (
            "main.xml",
            "<scene><include filename=\"defs.xml\"/>\
             <bsdf type=\"diffuse\" id=\"m\"><rgb name=\"reflectance\" value=\"$albedo\"/></bsdf></scene>",
        ),
        ("defs.xml", "<scene><default name=\"albedo\" value=\"0.25\"/></scene>"),
    ];
    let mut defaults: Dict<String> = Dict::new();
    let mut scene = Scene::new();
    read_files(&files, "main.xml", &mut defaults, &mut scene).unwrap();
    assert_eq!(defaults.get("albedo").unwrap(), "0.25");
    assert_eq!(
        scene.bsdfs.get("m"),
        Some(&BSDF::Diffuse { reflectance: BSDFColor::Constant(Spectrum::new("0.25")) })
    );
}

#[test]
fn include_stops_the_reading_behind_its_element() {
    let events = tokenize(b"<scene><include filename=\"a.xml\"><x/></include><default name=\"k\" value=\"v\"/></scene>");
    let mut pos: usize = 0;
    let mut defaults: Dict<String> = Dict::new();
    let mut scene = Scene::new();
    let d = parse_scene(&events, &mut pos, &mut defaults, &mut scene).unwrap();
    assert_eq!(d, Directive::Include("a.xml".to_string()));
    assert_eq!(pos, 6);
    assert!(defaults.is_empty());
    let d = parse_scene(&events, &mut pos, &mut defaults, &mut scene).unwrap();
    assert_eq!(d, Directive::Done);
    assert_eq!(pos, events.len());
    assert_eq!(defaults.get("k").unwrap(), "v");
}

#[test]
fn include_composition_is_last_writer_wins() {
    let files = [
        (
            "main.xml",
            "<scene><texture id=\"t\" type=\"checkerboard\"/><include filename=\"b.xml\"/></scene>",
        ),
        ("b.xml", "<scene><texture id=\"t\" type=\"gridtexture\"/></scene>"),
    ];
    let mut defaults: Dict<String> = Dict::new();
    let mut scene = Scene::new();
    read_files(&files, "main.xml", &mut defaults, &mut scene).unwrap();
    assert_eq!(scene.textures.len(), 1);
    assert!(matches!(scene.textures.get("t"), Some(Texture::GridTexture { .. })));
}

#[test]
fn undefined_default_is_refused() {
    match read_document("<scene><bsdf type=\"diffuse\" id=\"m\"><rgb name=\"reflectance\" value=\"$nope\"/></bsdf></scene>") {
        Err(Error::UnresolvedReference(name)) => assert_eq!(name, "nope"),
        other => panic!("{:?}", other),
    }
}

#[test]
fn named_reference_binds_the_material_of_a_shape() {
    let scene = read_document(
        "<scene>\
         <bsdf type=\"diffuse\" id=\"X\"><rgb name=\"reflectance\" value=\"0.7\"/></bsdf>\
         <shape type=\"cube\"><ref name=\"bsdf\" id=\"X\"/></shape>\
         </scene>",
    )
    .unwrap();
    assert_eq!(scene.shapes_unamed.len(), 1);
    match &scene.shapes_unamed[0] {
        Shape::Cube { option } => {
            assert_eq!(option.bsdf.as_ref(), scene.bsdfs.get("X"));
            assert!(option.bsdf.is_some());
            assert!(!option.flip_normal);
            assert!(option.to_world.is_none());
        }
        other => panic!("{:?}", other),
    }
}

#[test]
fn anonymous_references_of_a_shape() {
    let scene = read_document(
        "<scene>\
         <bsdf type=\"diffuse\" id=\"m\"/>\
         <shape type=\"shapegroup\" id=\"g\"><shape type=\"sphere\"><float name=\"radius\" value=\"2\"/></shape></shape>\
         <shape type=\"instance\"><ref id=\"unknown\"/><ref id=\"g\"/><ref id=\"m\"/></shape>\
         </scene>",
    )
    .unwrap();
    match scene.shapes_id.get("g").unwrap() {
        Shape::ShapeGroup { shapes } => {
            assert_eq!(shapes.len(), 1);
            match &shapes[0] {
                Shape::Sphere { center, radius, .. } => {
                    assert_eq!(center, &Vector3::new("0", "0", "0"));
                    assert_eq!(num(radius), 2.0);
                }
                other => panic!("{:?}", other),
            }
        }
        other => panic!("{:?}", other),
    }
    match &scene.shapes_unamed[0] {
        Shape::Instance { shape, option } => {
            assert_eq!(shape, "g");
            assert_eq!(option.bsdf.as_ref(), scene.bsdfs.get("m"));
        }
        other => panic!("{:?}", other),
    }
}

#[test]
fn kinds_of_shape() {
    let scene = read_document(
        "<scene>\
         <medium id=\"fog\" type=\"homogeneous\"><phase type=\"hg\"><float name=\"g\" value=\"0.5\"/></phase></medium>\
         <shape type=\"serialized\"><string name=\"filename\" value=\"m.serialized\"/><integer name=\"shapeIndex\" value=\"3\"/>\
           <ref name=\"interior\" id=\"fog\"/><boolean name=\"flipNormal\" value=\"true\"/></shape>\
         <shape type=\"obj\"><string name=\"filename\" value=\"a.obj\"/><float name=\"maxSmoothAngle\" value=\"30\"/>\
           <emitter type=\"area\"><spectrum name=\"radiance\" value=\"5\"/></emitter>\
           <transform name=\"toWorld\"><translate y=\"2\"/></transform></shape>\
         <shape type=\"ply\"><string name=\"filename\" value=\"a.ply\"/><boolean name=\"srgb\" value=\"false\"/></shape>\
         <shape type=\"cylinder\"/><shape type=\"rectangle\"/><shape type=\"disk\"/>\
         <ply filename=\"b.ply\"/>\
         </scene>",
    )
    .unwrap();
    assert_eq!(scene.shapes_unamed.len(), 7);
    match &scene.shapes_unamed[0] {
        Shape::Serialized(s) => {
            assert_eq!(s.filename, "m.serialized");
            assert_eq!(s.shape_index, 3);
            assert!(!s.face_normal);
            assert!(s.option.flip_normal);
            assert_eq!(s.option.interior.as_ref(), scene.medium.get("fog"));
            assert!(s.option.exterior.is_none());
        }
        other => panic!("{:?}", other),
    }
    match &scene.shapes_unamed[1] {
        Shape::Obj { filename, max_smooth_angle, flip_tex_coords, collapse, option, .. } => {
            assert_eq!(filename, "a.obj");
            assert_eq!(max_smooth_angle, &Some(Number::new("30")));
            assert!(*flip_tex_coords);
            assert!(!*collapse);
            assert_eq!(
                option.emitter,
                Some(AreaEmitter { radiance: Spectrum::new("5"), sampling_weight: Number::new("1") })
            );
            assert_eq!(option.to_world.as_ref().unwrap().ops.len(), 1);
        }
        other => panic!("{:?}", other),
    }
    assert!(matches!(&scene.shapes_unamed[2], Shape::Ply { srgb: false, .. }));
    match &scene.shapes_unamed[3] {
        Shape::Cylinder { p0, p1, radius, .. } => {
            assert_eq!(p0, &Vector3::new("0", "0", "0"));
            assert_eq!(p1, &Vector3::new("0", "0", "1"));
            assert_eq!(num(radius), 1.0);
        }
        other => panic!("{:?}", other),
    }
    assert!(matches!(&scene.shapes_unamed[4], Shape::Rectangle { .. }));
    assert!(matches!(&scene.shapes_unamed[5], Shape::Disk { .. }));
    match &scene.shapes_unamed[6] {
        Shape::Ply { filename, srgb: true, face_normal: false, max_smooth_angle: None, option } => {
            assert_eq!(filename, "b.ply");
            assert!(option.bsdf.is_none());
        }
        other => panic!("{:?}", other),
    }
    match scene.medium.get("fog").unwrap() {
        Medium::Homogenous { sigma_a, sigma_s, scale, phase } => {
            assert_eq!(sigma_a.value, "1");
            assert_eq!(sigma_s.value, "1");
            assert_eq!(num(scale), 1.0);
            assert_eq!(phase, &PhaseFunction::HG { g: Number::new("0.5") });
        }
    }
}

#[test]
fn shape_errors() {
    let cases = [
        ("<scene><shape type=\"cube\"><ref name=\"interior\" id=\"fog\"/></shape></scene>", "unresolved"),
        ("<scene><shape type=\"cube\"><ref name=\"bsdf\" id=\"m\"/></shape></scene>", "unresolved"),
        ("<scene><shape type=\"teapot\"/></scene>", "variant"),
        ("<scene><shape type=\"instance\"/></scene>", "missing"),
        ("<scene><shape type=\"obj\"/></scene>", "missing"),
        ("<scene><shape type=\"cube\"><emitter type=\"point\"><point name=\"position\"/></emitter></shape></scene>", "variant"),
        ("<scene><shape type=\"shapegroup\"><bsdf type=\"diffuse\"/></shape></scene>", "variant"),
        ("<scene><shape type=\"cube\"><sensor/></shape></scene>", "variant"),
        ("<scene><shape/></scene>", "missing"),
    ];
    for (doc, kind) in cases {
        match (kind, read_document(doc)) {
            ("unresolved", Err(Error::UnresolvedReference(_))) => {}
            ("variant", Err(Error::UnknownVariant(_, _))) => {}
            ("missing", Err(Error::MissingAttribute(_, _))) => {}
            (_, other) => panic!("{} gave {:?}", doc, other),
        }
    }
}

#[test]
fn kinds_of_material() {
    let scene = read_document(
        "<scene>\
         <bsdf type=\"phong\" id=\"phong\"><float name=\"exponent\" value=\"10\"/></bsdf>\
         <bsdf type=\"roughdielectric\" id=\"glass\"><string name=\"intIOR\" value=\"water\"/><float name=\"extIOR\" value=\"1.1\"/>\
           <string name=\"distribution\" value=\"ggx\"/><float name=\"alpha_u\" value=\"0.1\"/><float name=\"alpha_v\" value=\"0.2\"/></bsdf>\
         <bsdf type=\"thindielectric\" id=\"thin\"/>\
         <bsdf type=\"plastic\" id=\"plastic\"><boolean name=\"nonlinear\" value=\"true\"/></bsdf>\
         <bsdf type=\"roughdiffuse\" id=\"rd\"/>\
         <bsdf type=\"ward\" id=\"ward\"><string name=\"variant\" value=\"ward_duer\"/></bsdf>\
         <bsdf type=\"twosided\" id=\"two\"><bsdf type=\"diffuse\"/></bsdf>\
         <bsdf type=\"mask\" id=\"mask\"><spectrum name=\"opacity\" value=\"0.5\"/><bsdf type=\"phong\"/></bsdf>\
         <bsdf type=\"mask\" id=\"bare\"/>\
         <bsdf type=\"mixturebsdf\" id=\"mix\"><string name=\"weights\" value=\"0.7, 0.3\"/><bsdf type=\"diffuse\"/><bsdf type=\"phong\"/></bsdf>\
         <bsdf type=\"mixturebsdf\" id=\"refs\"><string name=\"weights\" value=\" 0.5 0.5 \"/><ref name=\"mat1\" id=\"phong\"/><ref name=\"mat2\" id=\"rd\"/></bsdf>\
         <bsdf type=\"diffuse\"><rgb name=\"reflectance\" value=\"zzz\"/></bsdf>\
         </scene>",
    )
    .unwrap();
    assert_eq!(scene.bsdfs.len(), 11);
    match scene.bsdfs.get("phong").unwrap() {
        BSDF::Phong { exponent, specular_reflectance, diffuse_reflectance } => {
            assert_eq!(exponent, &BSDFColor::Constant(Number::new("10")));
            assert_eq!(specular_reflectance, &BSDFColor::Constant(Spectrum::new("0.2")));
            assert_eq!(diffuse_reflectance, &BSDFColor::Constant(Spectrum::new("0.5")));
        }
        other => panic!("{:?}", other),
    }
    match scene.bsdfs.get("glass").unwrap() {
        BSDF::Dielectric { distribution: Some(d), int_ior, ext_ior, thin, .. } => {
            assert_eq!(d.distribution, "ggx");
            assert_eq!(
                d.alpha,
                Alpha::Anisotropic {
                    u: BSDFColor::Constant(Number::new("0.1")),
                    v: BSDFColor::Constant(Number::new("0.2")),
                }
            );
            assert_eq!(num(int_ior), 1.333);
            assert_eq!(num(ext_ior), 1.1);
            assert!(!*thin);
        }
        other => panic!("{:?}", other),
    }
    match scene.bsdfs.get("thin").unwrap() {
        BSDF::Dielectric { distribution: None, int_ior, ext_ior, thin: true, .. } => {
            assert_eq!(num(int_ior), 1.5046);
            assert_eq!(num(ext_ior), 1.000277);
        }
        other => panic!("{:?}", other),
    }
    match scene.bsdfs.get("plastic").unwrap() {
        BSDF::Plastic { distribution: None, int_ior, nonlinear: true, .. } => assert_eq!(num(int_ior), 1.49),
        other => panic!("{:?}", other),
    }
    assert_eq!(
        scene.bsdfs.get("rd"),
        Some(&BSDF::Roughtdiffuse {
            reflectance: BSDFColor::Constant(Spectrum::new("0.5")),
            alpha: BSDFColor::Constant(Number::new("0.1")),
            use_fast_approx: false,
        })
    );
    match scene.bsdfs.get("ward").unwrap() {
        BSDF::Ward { variant, alpha, .. } => {
            assert_eq!(*variant, WardVariant::WardDuer);
            assert_eq!(alpha, &Alpha::Isotropic(BSDFColor::Constant(Number::new("0.1"))));
        }
        other => panic!("{:?}", other),
    }
    match scene.bsdfs.get("two").unwrap() {
        BSDF::TwoSided { bsdf } => assert!(matches!(**bsdf, BSDF::Diffuse { .. })),
        other => panic!("{:?}", other),
    }
    match scene.bsdfs.get("mask").unwrap() {
        BSDF::Mask { opacity, bsdf } => {
            assert_eq!(opacity, &BSDFColor::Constant(Spectrum::new("0.5")));
            assert!(matches!(**bsdf, BSDF::Phong { .. }));
        }
        other => panic!("{:?}", other),
    }
    match scene.bsdfs.get("bare").unwrap() {
        BSDF::Mask { bsdf, .. } => assert_eq!(**bsdf, BSDF::default()),
        other => panic!("{:?}", other),
    }
    match scene.bsdfs.get("mix").unwrap() {
        BSDF::MixtureBSDF { weights, bsdfs } => {
            assert_eq!(weights, &vec![Number::new("0.7"), Number::new("0.3")]);
            assert_eq!(bsdfs.len(), 2);
            assert!(matches!(bsdfs[1], BSDF::Phong { .. }));
        }
        other => panic!("{:?}", other),
    }
    match scene.bsdfs.get("refs").unwrap() {
        BSDF::MixtureBSDF { weights, bsdfs } => {
            assert_eq!(weights.len(), 2);
            assert_eq!(Some(&bsdfs[0]), scene.bsdfs.get("phong"));
            assert_eq!(Some(&bsdfs[1]), scene.bsdfs.get("rd"));
        }
        other => panic!("{:?}", other),
    }
}

#[test]
fn diffuse_falls_back_to_the_other_name() {
    let scene = read_document(
        "<scene>\
         <bsdf type=\"diffuse\" id=\"a\"><rgb name=\"diffuseReflectance\" value=\"0.9\"/></bsdf>\
         <bsdf type=\"diffuse\" id=\"b\"><rgb name=\"reflectance\" value=\"0.3\"/><rgb name=\"diffuseReflectance\" value=\"0.9\"/></bsdf>\
         <bsdf type=\"diffuse\" id=\"c\"/>\
         </scene>",
    )
    .unwrap();
    let constant = |v: &str| BSDF::Diffuse { reflectance: BSDFColor::Constant(Spectrum::new(v)) };
    assert_eq!(scene.bsdfs.get("a"), Some(&constant("0.9")));
    assert_eq!(scene.bsdfs.get("b"), Some(&constant("0.3")));
    assert_eq!(scene.bsdfs.get("c"), Some(&constant("0.5")));
    assert_eq!(BSDF::default(), constant("0.8"));
}

#[test]
fn texture_inside_a_material() {
    let scene = read_document(
        "<scene><bsdf type=\"diffuse\" id=\"m\">\
         <texture name=\"reflectance\" type=\"checkerboard\" id=\"check\"><float name=\"uscale\" value=\"4\"/></texture>\
         </bsdf>\
         <bsdf type=\"phong\" id=\"p\"><texture name=\"exponent\" type=\"gridtexture\"/><ref name=\"diffuseReflectance\" id=\"check\"/></bsdf>\
         </scene>",
    )
    .unwrap();
    let check = Texture::Checkerboard {
        color0: Spectrum::new("0.4"),
        color1: Spectrum::new("0.2"),
        offset: Vector2 { x: Number::new("0"), y: Number::new("0") },
        scale: Vector2 { x: Number::new("4"), y: Number::new("1") },
    };
    assert_eq!(scene.textures.len(), 1);
    assert_eq!(scene.textures.get("check"), Some(&check));
    assert_eq!(scene.bsdfs.get("m"), Some(&BSDF::Diffuse { reflectance: BSDFColor::Texture(check.clone()) }));
    match scene.bsdfs.get("p").unwrap() {
        BSDF::Phong { exponent, diffuse_reflectance, .. } => {
            assert!(matches!(exponent, BSDFColor::Texture(Texture::GridTexture { .. })));
            assert_eq!(diffuse_reflectance, &BSDFColor::Texture(check));
        }
        other => panic!("{:?}", other),
    }
}

#[test]
fn material_errors() {
    let cases = [
        ("<scene><bsdf type=\"velvet\" id=\"m\"/></scene>", "variant"),
        ("<scene><bsdf id=\"m\"/></scene>", "missing"),
        ("<scene><bsdf type=\"twosided\" id=\"m\"/></scene>", "missing"),
        ("<scene><bsdf type=\"twosided\" id=\"m\"><bsdf type=\"diffuse\"/><bsdf type=\"diffuse\"/></bsdf></scene>", "variant"),
        ("<scene><bsdf type=\"twosided\" id=\"m\"><float name=\"x\" value=\"1\"/><bsdf type=\"diffuse\"/></bsdf></scene>", "variant"),
        ("<scene><bsdf type=\"diffuse\" id=\"m\"><bsdf type=\"diffuse\"/></bsdf></scene>", "variant"),
        ("<scene><bsdf type=\"diffuse\" id=\"m\"><ref id=\"x\"/></bsdf></scene>", "unresolved"),
        ("<scene><bsdf type=\"mixturebsdf\" id=\"m\"/></scene>", "missing"),
        ("<scene><bsdf type=\"mixturebsdf\" id=\"m\"><string name=\"weights\" value=\"1\"/></bsdf></scene>", "missing"),
        ("<scene><bsdf type=\"mixturebsdf\" id=\"m\"><string name=\"weights\" value=\"1\"/><ref name=\"mat1\" id=\"q\"/></bsdf></scene>", "unresolved"),
        ("<scene><bsdf type=\"mixturebsdf\" id=\"m\"><string name=\"weights\" value=\"a b\"/></bsdf></scene>", "mismatch"),
        ("<scene><bsdf type=\"ward\" id=\"m\"><string name=\"variant\" value=\"x\"/></bsdf></scene>", "variant"),
        ("<scene><bsdf type=\"phong\" id=\"m\"><spectrum name=\"exponent\" value=\"1\"/></bsdf></scene>", "mismatch"),
        ("<scene><bsdf type=\"diffuse\" id=\"m\"><float name=\"reflectance\" value=\"1\"/></bsdf></scene>", "mismatch"),
        ("<scene><bsdf type=\"dielectric\" id=\"m\"><string name=\"intIOR\" value=\"mud\"/></bsdf></scene>", "variant"),
        ("<scene><bsdf type=\"diffuse\" id=\"m\"><texture type=\"bitmap\"/></bsdf></scene>", "missing"),
        ("<scene><bsdf type=\"diffuse\" id=\"m\"><texture name=\"reflectance\" type=\"bitmap\"/></bsdf></scene>", "missing"),
        ("<scene><bsdf type=\"diffuse\" id=\"m\"><texture name=\"reflectance\" type=\"noise\"/></bsdf></scene>", "variant"),
    ];
    for (doc, kind) in cases {
        match (kind, read_document(doc)) {
            ("unresolved", Err(Error::UnresolvedReference(_))) => {}
            ("variant", Err(Error::UnknownVariant(_, _))) => {}
            ("missing", Err(Error::MissingAttribute(_, _))) => {}
            ("mismatch", Err(Error::ValueMismatch(_, _))) => {}
            (_, other) => panic!("{} gave {:?}", doc, other),
        }
    }
}

#[test]
fn material_without_identifier_is_passed_over() {
    let scene = read_document(
        "<scene><bsdf type=\"nonsense\"><float value=\"broken\"/><unknown/></bsdf><bsdf type=\"diffuse\" id=\"m\"/></scene>",
    )
    .unwrap();
    assert_eq!(scene.bsdfs.len(), 1);
    assert!(scene.bsdfs.contains_key("m"));
}

#[test]
fn unknown_elements_right_under_the_scene_are_passed_over() {
    let scene = read_document(
        "<scene version=\"0.6.0\"><integrator type=\"path\"><integer name=\"maxDepth\" value=\"x\"/><sampler type=\"a\"/></integrator>\
         <sampler type=\"independent\"><integer name=\"sampleCount\" value=\"bad\"/></sampler>\
         <mystery/><texture id=\"t\" type=\"checkerboard\"/></scene>",
    )
    .unwrap();
    assert_eq!(scene.textures.len(), 1);
    assert!(scene.bsdfs.is_empty());
}

#[test]
fn kinds_of_emitter() {
    let scene = read_document(
        "<scene>\
         <emitter type=\"point\"><point name=\"position\" x=\"1\" y=\"2\" z=\"3\"/><spectrum name=\"intensity\" value=\"9\"/></emitter>\
         <emitter type=\"point-normal\"><point name=\"position\" x=\"1\"/><vector name=\"normal\" z=\"1\"/></emitter>\
         <emitter type=\"spot\"><float name=\"cutoffAngle\" value=\"40\"/></emitter>\
         <emitter type=\"spot\"><float name=\"beamWidth\" value=\"12\"/><float name=\"samplingWeight\" value=\"2\"/></emitter>\
         <emitter type=\"directional\"><vector name=\"direction\" x=\"0\" y=\"-1\" z=\"0\"/></emitter>\
         <emitter type=\"constant\"><spectrum name=\"radiance\" value=\"0.5\"/></emitter>\
         <emitter type=\"envmap\"><string name=\"filename\" value=\"sky.exr\"/><float name=\"gamma\" value=\"2.2\"/><boolean name=\"cache\" value=\"false\"/></emitter>\
         <emitter type=\"sun\"><vector name=\"sunDirection\" x=\"0\" y=\"1\" z=\"0\"/><float name=\"turbidity\" value=\"4\"/><string name=\"year\" value=\"oops\"/></emitter>\
         <emitter type=\"sky\"><integer name=\"year\" value=\"2020\"/><integer name=\"resolution\" value=\"256\"/><spectrum name=\"albedo\" value=\"0.3\"/><float name=\"stretch\" value=\"1.5\"/></emitter>\
         <emitter type=\"sunsky\"/>\
         <emitter type=\"area\"><spectrum name=\"radiance\" value=\"1\"/></emitter>\
         </scene>",
    )
    .unwrap();
    assert_eq!(scene.emitters.len(), 11);
    match &scene.emitters[0] {
        Emitter::Point { to_world, position, intensity, sampling_weight } => {
            assert_eq!(to_world, &Transform::identity());
            assert_eq!(position, &Vector3::new("1", "2", "3"));
            assert_eq!(intensity.value, "9");
            assert_eq!(num(sampling_weight), 1.0);
        }
        other => panic!("{:?}", other),
    }
    match &scene.emitters[1] {
        Emitter::PointNormal { position, normal, .. } => {
            assert_eq!(position, &Vector3::new("1", "0.0", "0.0"));
            assert_eq!(normal, &Vector3::new("0.0", "0.0", "1"));
        }
        other => panic!("{:?}", other),
    }
    match &scene.emitters[2] {
        Emitter::Spot { cutoff_angle, beam_width, texture, .. } => {
            assert_eq!(num(cutoff_angle), 40.0);
            assert_eq!(beam_width, &None);
            assert!(texture.is_none());
        }
        other => panic!("{:?}", other),
    }
    match &scene.emitters[3] {
        Emitter::Spot { cutoff_angle, beam_width, sampling_weight, .. } => {
            assert_eq!(num(cutoff_angle), 20.0);
            assert_eq!(beam_width, &Some(Number::new("12")));
            assert_eq!(num(sampling_weight), 2.0);
        }
        other => panic!("{:?}", other),
    }
    assert!(matches!(&scene.emitters[4], Emitter::Directional { .. }));
    assert!(matches!(&scene.emitters[5], Emitter::Constant { .. }));
    match &scene.emitters[6] {
        Emitter::EnvMap { filename, scale, gamma, cache, .. } => {
            assert_eq!(filename, "sky.exr");
            assert_eq!(num(scale), 1.0);
            assert_eq!(gamma, &Some(Number::new("2.2")));
            assert_eq!(cache, &Some(false));
        }
        other => panic!("{:?}", other),
    }
    match &scene.emitters[7] {
        Emitter::SunSky { turbidity, resolution, sun_direction, sun, sky, .. } => {
            assert_eq!(num(turbidity), 4.0);
            assert_eq!(*resolution, 512);
            assert_eq!(sun_direction, &SunDirection::Vector(Vector3::new("0", "1", "0")));
            assert!(sun.is_some() && sky.is_none());
        }
        other => panic!("{:?}", other),
    }
    match &scene.emitters[8] {
        Emitter::SunSky { resolution, sun_direction, sun, sky, .. } => {
            assert_eq!(*resolution, 256);
            match sun_direction {
                SunDirection::DateAndPos { year, month, day, hour, latitude, longitude, timezone, .. } => {
                    assert_eq!((*year, *month, *day), (2020, 10, 10));
                    assert_eq!(num(hour), 15.0);
                    assert_eq!(num(latitude), 35.6894);
                    assert_eq!(num(longitude), 139.6917);
                    assert_eq!(num(timezone), 9.0);
                }
                other => panic!("{:?}", other),
            }
            assert!(sun.is_none());
            let sky = sky.as_ref().unwrap();
            assert_eq!(sky.albedo.value, "0.3");
            assert_eq!(num(&sky.stretch), 1.5);
        }
        other => panic!("{:?}", other),
    }
    match &scene.emitters[9] {
        Emitter::SunSky { sun: Some(sun), sky: Some(sky), .. } => {
            assert_eq!(num(&sun.radius_scale), 1.0);
            assert_eq!(sky.albedo.value, "0.15");
        }
        other => panic!("{:?}", other),
    }
    assert!(matches!(&scene.emitters[10], Emitter::Area(_)));
}

#[test]
fn emitter_errors() {
    let cases = [
        ("<scene><emitter type=\"laser\"/></scene>", "variant"),
        ("<scene><emitter type=\"area\"/></scene>", "missing"),
        ("<scene><emitter type=\"point\"/></scene>", "missing"),
        ("<scene><emitter type=\"envmap\"/></scene>", "missing"),
        ("<scene><emitter type=\"constant\"><float name=\"radiance\" value=\"1\"/></emitter></scene>", "mismatch"),
        ("<scene><emitter type=\"sun\"><float name=\"sunDirection\" value=\"1\"/></emitter></scene>", "mismatch"),
        ("<scene><emitter type=\"area\"><film/></emitter></scene>", "variant"),
        ("<scene><emitter type=\"area\"><ref id=\"x\"/></emitter></scene>", "unresolved"),
    ];
    for (doc, kind) in cases {
        match (kind, read_document(doc)) {
            ("unresolved", Err(Error::UnresolvedReference(_))) => {}
            ("variant", Err(Error::UnknownVariant(_, _))) => {}
            ("missing", Err(Error::MissingAttribute(_, _))) => {}
            ("mismatch", Err(Error::ValueMismatch(_, _))) => {}
            (_, other) => panic!("{} gave {:?}", doc, other),
        }
    }
}

#[test]
fn sensor_and_film() {
    let scene = read_document(
        "<scene>\n<sensor type=\"perspective\">\n\
         <float name=\"fov\" value=\"39.3077\"/>\n<string name=\"fovAxis\" value=\"smaller\"/>\n\
         <float name=\"farClip\" value=\"2800\"/>\n\
         <transform name=\"toWorld\"><lookat target=\"0,0,0\" origin=\"0,0,5\" up=\"0,1,0\"/></transform>\n\
         <sampler type=\"ldsampler\"><integer name=\"sampleCount\" value=\"64\"/></sampler>\n\
         <film type=\"hdrfilm\"><integer name=\"width\" value=\"512\"/><integer name=\"height\" value=\"384\"/>\
           <string name=\"pixelFormat\" value=\"rgb\"/><rfilter type=\"gaussian\"><float name=\"stddev\" value=\"0.5\"/></rfilter></film>\n\
         </sensor>\n</scene>",
    )
    .unwrap();
    assert_eq!(scene.sensors.len(), 1);
    let s: &Sensor = &scene.sensors[0];
    assert_eq!(num(&s.fov), 39.3077);
    assert_eq!(s.fov_axis, "smaller");
    assert_eq!(num(&s.shutter_open), 0.0);
    assert_eq!(num(&s.shutter_close), 0.0);
    assert_eq!(num(&s.near_clip), 0.01);
    assert_eq!(num(&s.far_clip), 2800.0);
    assert_eq!(s.film, Film { height: 384, width: 512 });
    assert_eq!(s.to_world.ops.len(), 1);
}

#[test]
fn sensor_errors() {
    let cases = [
        ("<scene><sensor type=\"orthographic\"/></scene>", "variant"),
        ("<scene><sensor type=\"perspective\"><film><integer name=\"width\" value=\"1\"/><integer name=\"height\" value=\"1\"/></film></sensor></scene>", "missing"),
        ("<scene><sensor type=\"perspective\"><float name=\"fov\" value=\"1\"/></sensor></scene>", "missing"),
        ("<scene><sensor type=\"perspective\"><float name=\"fov\" value=\"1\"/><film><integer name=\"width\" value=\"1\"/></film></sensor></scene>", "missing"),
        ("<scene><sensor type=\"perspective\"><float name=\"fov\" value=\"1\"/><bsdf type=\"diffuse\"/></sensor></scene>", "variant"),
    ];
    for (doc, kind) in cases {
        match (kind, read_document(doc)) {
            ("variant", Err(Error::UnknownVariant(_, _))) => {}
            ("missing", Err(Error::MissingAttribute(_, _))) => {}
            (_, other) => panic!("{} gave {:?}", doc, other),
        }
    }
}

#[test]
fn leaves_of_every_kind() {
    let events = tokenize(
        b"<x>\n\
          <float name=\"f\" value=\"1.5\"/>\n\
          <integer name=\"i\" value=\"-7\"/>\n\
          <boolean name=\"b\" value=\"true\"/>\n\
          <string name=\"s\" value=\"text\"/>\n\
          <spectrum name=\"sp\" value=\"400:1\"/>\n\
          <rgb name=\"c\" value=\"#ff0000\"/>\n\
          <vector name=\"v\" x=\"1\" z=\"3\"/>\n\
          <point name=\"p\" y=\"2\"/>\n\
          <ref name=\"r\" id=\"target\"/>\n\
          <ref id=\"first\"/>\n\
          <ref id=\"second\"/>\n\
          <float name=\"f\" value=\"2.5\"/>\n\
          </x>",
    );
    let mut pos: usize = 2;
    let defaults: Dict<String> = Dict::new();
    let props = values(&events, &mut pos, &defaults, true).unwrap();
    assert_eq!(pos, events.len() - 1);
    assert_eq!(props.refs, vec!["first".to_string(), "second".to_string()]);
    assert_eq!(props.map.len(), 9);
    assert_eq!(props.map.get("f"), Some(&Value::Float(Number::new("2.5"))));
    assert_eq!(props.map.key_at(0), "f");
    assert_eq!(props.map.get("i"), Some(&Value::Integer(-7)));
    assert_eq!(props.map.get("b"), Some(&Value::Boolean(true)));
    assert_eq!(props.map.get("s"), Some(&Value::String("text".to_string())));
    assert_eq!(props.map.get("sp"), Some(&Value::Spectrum(Spectrum::new("400:1"))));
    assert_eq!(props.map.get("c"), Some(&Value::Spectrum(Spectrum::new("#ff0000"))));
    assert_eq!(props.map.get("v"), Some(&Value::Vector(Vector3::new("1", "0.0", "3"))));
    assert_eq!(props.map.get("p"), Some(&Value::Point(Vector3::new("0.0", "2", "0.0"))));
    assert_eq!(props.map.get("r"), Some(&Value::Ref("target".to_string())));
    assert_eq!(read_value(&props.map, "i", Value::Integer(1)), Value::Integer(-7));
    assert_eq!(read_value(&props.map, "zz", Value::Integer(1)), Value::Integer(1));
}

#[test]
fn children_are_refused_or_passed_over() {
    let events = tokenize(b"<x><float name=\"a\" value=\"1\"/><child><float value=\"bad\"/><deep/></child><float name=\"b\" value=\"2\"/></x>");
    let defaults: Dict<String> = Dict::new();
    let mut pos: usize = 2;
    match values(&events, &mut pos, &defaults, true) {
        Err(Error::UnknownVariant(kind, tag)) => {
            assert_eq!(kind, "element");
            assert_eq!(tag, "child");
        }
        other => panic!("{:?}", other),
    }
    let mut pos: usize = 2;
    let props = values(&events, &mut pos, &defaults, false).unwrap();
    assert_eq!(props.map.len(), 2);
    assert_eq!(pos, events.len() - 1);
}

#[test]
fn malformed_leaves_are_refused() {
    let defaults: Dict<String> = Dict::new();
    let cases: [(&[u8], &str); 8] = [
        (b"<x><float name=\"a\" value=\"abc\"/></x>", "mismatch"),
        (b"<x><integer name=\"a\" value=\"1.5\"/></x>", "mismatch"),
        (b"<x><integer name=\"a\" value=\"99999999999\"/></x>", "mismatch"),
        (b"<x><boolean name=\"a\" value=\"yes\"/></x>", "mismatch"),
        (b"<x><vector name=\"a\" x=\"q\"/></x>", "mismatch"),
        (b"<x><float value=\"1\"/></x>", "missing"),
        (b"<x><string name=\"a\"/></x>", "missing"),
        (b"<x><ref name=\"a\"/></x>", "missing"),
    ];
    for (doc, kind) in cases {
        let events = tokenize(doc);
        let mut pos: usize = 2;
        match (kind, values(&events, &mut pos, &defaults, true)) {
            ("mismatch", Err(Error::ValueMismatch(_, Value::String(_)))) => {}
            ("missing", Err(Error::MissingAttribute(_, _))) => {}
            (_, other) => panic!("{:?}", other),
        }
    }
    let events = tokenize(b"<x>text</x>");
    let mut pos: usize = 2;
    assert!(matches!(values(&events, &mut pos, &defaults, true), Err(Error::XmlTokenizer(_))));
    let events = vec![start("float", vec![attr("name", "a"), attr("value", "1")])];
    let mut pos: usize = 0;
    assert!(matches!(values(&events, &mut pos, &defaults, true), Err(Error::XmlTokenizer(_))));
}

#[test]
fn attributes_and_defaults() {
    let mut defaults: Dict<String> = Dict::new();
    defaults.insert("res".to_string(), "512".to_string());
    let attrs = vec![attr("a", "1"), attr("b", "$res"), attr("a", "2"), attr("v", "1, 2 ,3"), attr("u", "$x")];
    assert_eq!(found_attrib(&attrs, "a", &defaults).unwrap(), Some("1".to_string()));
    assert_eq!(found_attrib(&attrs, "b", &defaults).unwrap(), Some("512".to_string()));
    assert_eq!(found_attrib(&attrs, "c", &defaults).unwrap(), None);
    assert_eq!(found_attrib_or(&attrs, "c", "dflt", &defaults).unwrap(), "dflt");
    assert_eq!(found_attrib_or_error(&attrs, "a", "ctx", &defaults).unwrap(), "1");
    match found_attrib_or_error(&attrs, "c", "ctx", &defaults) {
        Err(Error::MissingAttribute(a, c)) => {
            assert_eq!(a, "c");
            assert_eq!(c, "ctx");
        }
        other => panic!("{:?}", other),
    }
    assert_eq!(found_attrib_vec(&attrs, "v", &defaults).unwrap(), Some(Vector3::new("1", "2", "3")));
    assert_eq!(found_attrib_vec(&attrs, "c", &defaults).unwrap(), None);
    assert!(matches!(found_attrib_vec(&attrs, "a", &defaults), Err(Error::ValueMismatch(_, _))));
    assert!(matches!(found_attrib(&attrs, "u", &defaults), Err(Error::UnresolvedReference(_))));
    assert_eq!(match_value_or_defaults("".to_string(), &defaults).unwrap(), "");
    assert_eq!(match_value_or_defaults("plain".to_string(), &defaults).unwrap(), "plain");
    assert_eq!(match_value_or_defaults("$res".to_string(), &defaults).unwrap(), "512");
    match match_value_or_defaults("$".to_string(), &defaults) {
        Err(Error::UnresolvedReference(n)) => assert_eq!(n, ""),
        other => panic!("{:?}", other),
    }
}

#[test]
fn skipping_counts_starts_and_ends() {
    let events = vec![
        start("a", vec![]),
        Event::Whitespace,
        start("b", vec![]),
        Event::End,
        Event::Other,
        Event::End,
        Event::End,
        Event::End,
    ];
    let mut pos: usize = 0;
    skipping_entry(&events, &mut pos).unwrap();
    assert_eq!(pos, 7);
    let mut pos: usize = 7;
    skipping_entry(&events, &mut pos).unwrap();
    assert_eq!(pos, 8);
    let mut pos: usize = 8;
    assert!(matches!(skipping_entry(&events, &mut pos), Err(Error::XmlTokenizer(_))));
    let events = vec![start("a", vec![]), Event::Error("bad".to_string()), Event::End];
    let mut pos: usize = 0;
    match skipping_entry(&events, &mut pos) {
        Err(Error::XmlTokenizer(m)) => assert_eq!(m, "bad"),
        other => panic!("{:?}", other),
    }
}

#[test]
fn parameter_of_a_material_by_priority() {
    let mut scene = Scene::new();
    let check = Texture::Checkerboard {
        color0: Spectrum::new("0.4"),
        color1: Spectrum::new("0.2"),
        offset: Vector2 { x: Number::new("0"), y: Number::new("0") },
        scale: Vector2 { x: Number::new("1"), y: Number::new("1") },
    };
    scene.textures.insert("declared".to_string(), check.clone());
    let mut local: Dict<Texture> = Dict::new();
    local.insert("reflectance".to_string(), check.clone());
    let mut m: Dict<Value> = Dict::new();
    let r = read_value_or_texture_spectrum(&m, "reflectance", "0.5", &local, &scene).unwrap();
    assert_eq!(r, BSDFColor::Texture(check.clone()));
    let r = read_value_or_texture_spectrum(&m, "other", "0.5", &local, &scene).unwrap();
    assert_eq!(r, BSDFColor::Constant(Spectrum::new("0.5")));
    m.insert("reflectance".to_string(), Value::Spectrum(Spectrum::new("0.9")));
    let r = read_value_or_texture_spectrum(&m, "reflectance", "0.5", &local, &scene).unwrap();
    assert_eq!(r, BSDFColor::Constant(Spectrum::new("0.9")));
    m.insert("reflectance".to_string(), Value::Ref("declared".to_string()));
    let r = read_value_or_texture_spectrum(&m, "reflectance", "0.5", &local, &scene).unwrap();
    assert_eq!(r, BSDFColor::Texture(check));
    assert_eq!(
        Value::Float(Number::new("2")).as_bsdf_color_f32(&scene).unwrap(),
        BSDFColor::Constant(Number::new("2"))
    );
    assert!(matches!(
        Value::Ref("missing".to_string()).as_bsdf_color_spec(&scene),
        Err(Error::UnresolvedReference(_))
    ));
    assert!(matches!(
        Value::Float(Number::new("2")).as_bsdf_color_spec(&scene),
        Err(Error::ValueMismatch(_, _))
    ));
}

#[test]
fn reading_twice_gives_the_same_scene() {
    let doc = "<scene>\
         <default name=\"w\" value=\"64\"/>\
         <texture id=\"t\" type=\"checkerboard\"/>\
         <bsdf type=\"roughplastic\" id=\"m\"><ref name=\"diffuseReflectance\" id=\"t\"/></bsdf>\
         <medium id=\"fog\" type=\"homogeneous\"/>\
         <shape type=\"sphere\" id=\"ball\"><ref id=\"m\"/></shape>\
         <shape type=\"cube\"><ref name=\"exterior\" id=\"fog\"/></shape>\
         <sensor type=\"perspective\"><float name=\"fov\" value=\"30\"/><film><integer name=\"width\" value=\"$w\"/><integer name=\"height\" value=\"$w\"/></film></sensor>\
         <emitter type=\"constant\"><spectrum name=\"radiance\" value=\"1\"/></emitter>\
         </scene>";
    let a = read_document(doc).unwrap();
    let b = read_document(doc).unwrap();
    assert_eq!(a, b);
    assert_eq!(a.bsdfs.len(), 1);
    assert_eq!(a.shapes_id.key_at(0), "ball");
    assert_eq!(a.shapes_unamed.len(), 1);
    assert_eq!(a.sensors[0].film, Film { height: 64, width: 64 });
    assert_ne!(a, Scene::new());
}

#[test]
fn declared_things_keep_the_order_of_their_declaration() {
    let scene = read_document(
        "<scene><texture id=\"z\" type=\"checkerboard\"/><texture id=\"a\" type=\"checkerboard\"/>\
         <texture id=\"m\" type=\"checkerboard\"/><texture id=\"a\" type=\"gridtexture\"/></scene>",
    )
    .unwrap();
    assert_eq!(scene.textures.len(), 3);
    assert_eq!(scene.textures.key_at(0), "z");
    assert_eq!(scene.textures.key_at(1), "a");
    assert_eq!(scene.textures.key_at(2), "m");
    assert!(matches!(scene.textures.value_at(1), Texture::GridTexture { .. }));
}

#[test]
fn composition_is_associative_with_identity() {
    let read = |doc: &[u8]| {
        let events = tokenize(doc);
        let mut pos: usize = 2;
        let defaults: Dict<String> = Dict::new();
        Transform::parse(&events, &mut pos, &defaults).unwrap()
    };
    let a = read(b"<transform><translate x=\"1\" y=\"2\" z=\"4\"/></transform>");
    let b = read(b"<transform><scale value=\"2\"/></transform>");
    let c = read(b"<transform><scale x=\"0.5\" y=\"4\" z=\"8\"/><translate z=\"-3\"/></transform>");
    let all = read(
        b"<transform><translate x=\"1\" y=\"2\" z=\"4\"/><scale value=\"2\"/>\
          <scale x=\"0.5\" y=\"4\" z=\"8\"/><translate z=\"-3\"/></transform>",
    );
    let mut ops = a.ops.clone();
    ops.extend(b.ops.clone());
    ops.extend(c.ops.clone());
    assert_eq!(all.ops, ops);
    let (ma, mb, mc) = (matrix_of(&a), matrix_of(&b), matrix_of(&c));
    assert_eq!((ma * mb) * mc, ma * (mb * mc));
    assert_eq!(matrix_of(&all), ma * mb * mc);
    let one: Matrix4<f32> = matrix_of(&Transform::identity());
    assert_eq!(one * ma, ma);
    assert_eq!(ma * one, ma);
}

#[test]
fn a_whole_scene() {
    let doc = r##"<?xml version="1.0" encoding="utf-8"?>
<!-- A box with two blocks and a light -->
<scene version="0.5.0">
	<integrator type="path">
		<integer name="maxDepth" value="8"/>
	</integrator>

	<sensor type="perspective">
		<float name="focusDistance" value="6"/>
		<float name="fov" value="39.3077"/>
		<string name="fovAxis" value="x"/>
		<transform name="toWorld">
			<lookat target="278, 273, -799" origin="278, 273, -800" up="0, 1, 0"/>
		</transform>

		<sampler type="ldsampler">
			<integer name="sampleCount" value="64"/>
		</sampler>

		<film type="hdrfilm">
			<integer name="height" value="512"/>
			<integer name="width" value="512"/>
			<rfilter type="gaussian"/>
		</film>
	</sensor>

	<bsdf type="diffuse" id="box">
		<spectrum name="reflectance" value="400:0.343, 404:0.445, 408:0.551"/>
	</bsdf>

	<bsdf type="diffuse" id="white">
		<rgb name="reflectance" value=".75, .75, .75"/>
	</bsdf>

	<bsdf type="twosided" id="red">
		<bsdf type="diffuse">
			<rgb name="reflectance" value="#c00000"/>
		</bsdf>
	</bsdf>

	<bsdf type="diffuse" id="light">
		<spectrum name="reflectance" value="0.78"/>
	</bsdf>

	<shape type="obj">
		<string name="filename" value="meshes/cbox_luminaire.obj"/>
		<transform name="toWorld">
			<translate x="0" y="-0.5" z="0"/>
		</transform>

		<ref id="light"/>

		<emitter type="area">
			<spectrum name="radiance" value="400:0, 500:8, 600:15.6, 700:18.4"/>
		</emitter>
	</shape>

	<shape type="obj">
		<string name="filename" value="meshes/cbox_floor.obj"/>

		<ref id="white"/>
	</shape>

	<shape type="obj">
		<string name="filename" value="meshes/cbox_redwall.obj"/>

		<ref id="red"/>
	</shape>
</scene>
"##;
    let scene = read_document(doc).unwrap();
    assert_eq!(scene.bsdfs.len(), 4);
    assert_eq!(scene.sensors.len(), 1);
    assert_eq!(scene.sensors[0].film, Film { height: 512, width: 512 });
    assert_eq!(scene.shapes_unamed.len(), 3);
    assert!(scene.emitters.is_empty());
    match &scene.shapes_unamed[0] {
        Shape::Obj { filename, option, .. } => {
            assert_eq!(filename, "meshes/cbox_luminaire.obj");
            assert_eq!(option.bsdf.as_ref(), scene.bsdfs.get("light"));
            assert_eq!(option.emitter.as_ref().unwrap().radiance.value, "400:0, 500:8, 600:15.6, 700:18.4");
            assert_eq!(
                option.to_world.as_ref().unwrap().ops,
                vec![TransformOp::Translate(Vector3::new("0", "-0.5", "0"))]
            );
        }
        other => panic!("{:?}", other),
    }
    match &scene.shapes_unamed[2] {
        Shape::Obj { option, .. } => match option.bsdf.as_ref().unwrap() {
            BSDF::TwoSided { bsdf } => match &**bsdf {
                BSDF::Diffuse { reflectance: BSDFColor::Constant(s) } => {
                    let rgb = s.clone().as_rgb().unwrap();
                    assert_eq!((rgb.r, rgb.g, rgb.b), (Channel::Byte(0xc0), Channel::Byte(0), Channel::Byte(0)));
                }
                other => panic!("{:?}", other),
            },
            other => panic!("{:?}", other),
        },
        other => panic!("{:?}", other),
    }
    match scene.bsdfs.get("box").unwrap() {
        BSDF::Diffuse { reflectance: BSDFColor::Constant(s) } => {
            assert!(matches!(s.clone().as_rgb(), Err(Error::UnsupportedSpectralSamples(_))));
        }
        other => panic!("{:?}", other),
    }
}
