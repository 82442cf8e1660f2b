use scene_loader::error::ParseError;
use scene_loader::face::parse_corner;
use scene_loader::mesh::{LineAction, MeshDescriptions, ObjLoader};
use scene_loader::number::Scalar;
use scene_loader::pool::VertexPool;
use scene_loader::text::split_lines;
use scene_loader::vector::{ParseVector, Vec3, Vec4};
use scene_loader::vertex::Vertex;

fn toks(s: &str) -> Vec<Vec<char>> {
    s.split_whitespace().map(|t| t.chars().collect()).collect()
}

fn num(s: &Scalar) -> f32 {
    s.text().parse::<f32>().unwrap()
}

fn v3(v: &Vec3) -> (f32, f32, f32) {
    (num(&v.x), num(&v.y), num(&v.z))
}

fn v4(v: &Vec4) -> (f32, f32, f32, f32) {
    (num(&v.x), num(&v.y), num(&v.z), num(&v.w))
}

fn load(lines: &[&str]) -> Result<MeshDescriptions, ParseError> {
    let mut loader = ObjLoader::new("models");
    for line in lines {
        match loader.process_line(line)? {
            LineAction::Continue => {}
            LineAction::LoadLibrary(p) => panic!("unexpected library {}", p),
        }
    }
    Ok(loader.finish())
}

fn pool_with(positions: usize, normals: usize, textures: usize) -> VertexPool {
    let mut pool = VertexPool::new();
    for i in 0..positions {
        pool.append_position(&toks(&format!("{} 0 0", i + 1))).unwrap();
    }
    for i in 0..normals {
        pool.append_normal(&toks(&format!("0 {} 0", i + 1))).unwrap();
    }
    for i in 0..textures {
        pool.append_texture(&toks(&format!("0 0 {}", i + 1))).unwrap();
    }
    pool
}

fn is_general<T>(r: &Result<T, ParseError>) -> bool {
    matches!(r, Err(ParseError::GeneralError(_)))
}

#[test]
fn position_without_w_defaults_to_one() {
    let mut pool = VertexPool::new();
    pool.append_position(&toks("1.5 -2 3e1")).unwrap();
    let p = pool.resolve_position(1).unwrap();
    assert_eq!(v4(&p), (1.5, -2.0, 30.0, 1.0));
    assert_eq!(p.w.text(), "1.0");
}

#[test]
fn position_with_w_keeps_fourth_token() {
    let mut pool = VertexPool::new();
    pool.append_position(&toks("1 2 3 0.25")).unwrap();
    let p = pool.resolve_position(1).unwrap();
    assert_eq!(p.w.text(), "0.25");
    assert_eq!(v4(&p), (1.0, 2.0, 3.0, 0.25));
}

#[test]
fn position_needs_three_or_four_numbers() {
    let mut pool = VertexPool::new();
    assert!(is_general(&pool.append_position(&toks("1 2"))));
    assert!(is_general(&pool.append_position(&toks("1 2 3 4 5"))));
    assert!(is_general(&pool.append_position(&toks("1 2 x"))));
    assert!(is_general(&pool.append_position(&toks("1 2 3 w"))));
    assert_eq!(pool.position_count(), 0);
}

#[test]
fn texture_with_two_numbers_fills_zero() {
    let mut pool = VertexPool::new();
    pool.append_texture(&toks("0.5 0.25")).unwrap();
    let t = pool.resolve_texture(1).unwrap();
    assert_eq!(v3(&t), (0.5, 0.25, 0.0));
    assert_eq!(t.z.text(), "0.0");
}

#[test]
fn normal_fills_one() {
    let mut pool = VertexPool::new();
    pool.append_normal(&toks("0.5")).unwrap();
    let n = pool.resolve_normal(1).unwrap();
    assert_eq!(v3(&n), (0.5, 1.0, 1.0));
    assert!(is_general(&pool.append_normal(&toks("1 2 3 4"))));
}

#[test]
fn resolving_zero_or_past_the_end_fails() {
    let pool = pool_with(2, 1, 1);
    assert!(is_general(&pool.resolve_position(0)));
    assert!(is_general(&pool.resolve_position(3)));
    assert!(pool.resolve_position(2).is_ok());
    assert!(is_general(&pool.resolve_normal(0)));
    assert!(is_general(&pool.resolve_normal(2)));
    assert!(is_general(&pool.resolve_texture(0)));
    assert!(is_general(&pool.resolve_texture(2)));
    assert_eq!(v4(&pool.resolve_position(2).unwrap()), (2.0, 0.0, 0.0, 1.0));
}

#[test]
fn corner_position_normal() {
    let pool = pool_with(3, 2, 0);
    let c: Vec<char> = "3//2".chars().collect();
    match parse_corner(&c, &pool).unwrap() {
        Vertex::PositionNormal(v) => {
            assert_eq!(v4(&v.position), (3.0, 0.0, 0.0, 1.0));
            assert_eq!(v3(&v.normal), (0.0, 2.0, 0.0));
        }
        other => panic!("wrong shape {:?}", other),
    }
}

#[test]
fn corner_position_texture_normal() {
    let pool = pool_with(5, 4, 1);
    let c: Vec<char> = "5/1/4".chars().collect();
    match parse_corner(&c, &pool).unwrap() {
        Vertex::PositionNormalTexture(v) => {
            assert_eq!(v4(&v.position), (5.0, 0.0, 0.0, 1.0));
            assert_eq!(v3(&v.texture), (0.0, 0.0, 1.0));
            assert_eq!(v3(&v.normal), (0.0, 4.0, 0.0));
        }
        other => panic!("wrong shape {:?}", other),
    }
}

#[test]
fn corner_position_texture() {
    let pool = pool_with(2, 0, 2);
    let c: Vec<char> = "2/1".chars().collect();
    match parse_corner(&c, &pool).unwrap() {
        Vertex::PositionTexture(v) => {
            assert_eq!(v4(&v.position), (2.0, 0.0, 0.0, 1.0));
            assert_eq!(v3(&v.texture), (0.0, 0.0, 1.0));
        }
        other => panic!("wrong shape {:?}", other),
    }
}

#[test]
fn malformed_corners_fail() {
    let pool = pool_with(3, 3, 3);
    for bad in ["1", "0/1", "4/1", "1/1/1/1", "1//", "a/1", "1/-1", "1//2//3", "1/2/"] {
        let c: Vec<char> = bad.chars().collect();
        assert!(is_general(&parse_corner(&c, &pool)), "{}", bad);
    }
    let c: Vec<char> = "+1/2".chars().collect();
    assert!(parse_corner(&c, &pool).is_ok());
}

#[test]
fn face_of_bare_indices_fails() {
    let r = load(&["v 0 0 0", "v 1 0 0", "v 1 1 0", "f 1 2 3"]);
    assert!(is_general(&r));
}

#[test]
fn group_flushes_only_pending_faces() {
    let mut loader = ObjLoader::new("d");
    for line in ["vt 0 0", "v 0 0 0", "v 1 0 0", "v 1 1 0", "g first", "g second"] {
        loader.process_line(line).unwrap();
    }
    for line in ["f 1/1 2/1 3/1", "g third", "f 3/1 2/1 1/1", "f 1/1 1/1 1/1"] {
        loader.process_line(line).unwrap();
    }
    let scene = loader.finish();
    assert_eq!(scene.meshes.len(), 2);
    assert_eq!(scene.meshes[0].name, "second");
    assert_eq!(scene.meshes[0].vertices.len(), 3);
    assert_eq!(scene.meshes[1].name, "third");
    assert_eq!(scene.meshes[1].vertices.len(), 6);
}

#[test]
fn end_of_file_flushes_an_empty_mesh() {
    let scene = load(&["v 0 0 0", "g lonely"]).unwrap();
    assert_eq!(scene.meshes.len(), 1);
    assert_eq!(scene.meshes[0].name, "lonely");
    assert_eq!(scene.meshes[0].material, "unknown material");
    assert!(scene.meshes[0].vertices.is_empty());
}

#[test]
fn material_is_read_at_flush_time() {
    let scene = load(&[
        "v 0 0 0",
        "vn 0 0 1",
        "usemtl red",
        "g a",
        "f 1//1 1//1 1//1",
        "usemtl blue",
        "g b",
    ])
    .unwrap();
    assert_eq!(scene.meshes[0].name, "a");
    assert_eq!(scene.meshes[0].material, "blue");
}

#[test]
fn names_join_remaining_tokens() {
    let scene = load(&["g  my   big\tgroup ", "usemtl  shiny  metal"]).unwrap();
    assert_eq!(scene.meshes[0].name, "my big group");
    assert_eq!(scene.meshes[0].material, "shiny metal");
}

#[test]
fn ignored_and_unknown_directives() {
    assert!(load(&["# comment", "s off", "vp 1 2", "", "   "]).is_ok());
    match load(&["v 0 0 0", "bogus 1"]) {
        Err(ParseError::UnknownToken(t)) => assert_eq!(t, "bogus"),
        other => panic!("{:?}", other.map(|_| ())),
    }
}

#[test]
fn mtllib_asks_for_library_under_directory() {
    let mut loader = ObjLoader::new("assets/ship");
    match loader.process_line("mtllib ship parts.mtl").unwrap() {
        LineAction::LoadLibrary(p) => assert_eq!(p, "assets/ship/ship parts.mtl"),
        LineAction::Continue => panic!("no library asked for"),
    }
}

#[test]
fn parse_vector_from_text() {
    let v = Vec4::from_str(" 1 2\t3 ").unwrap();
    assert_eq!(v4(&v), (1.0, 2.0, 3.0, 1.0));
    let v = Vec4::from_str("1 2 3 4").unwrap();
    assert_eq!(v4(&v), (1.0, 2.0, 3.0, 4.0));
    assert!(is_general(&Vec4::from_str("1 2")));
    let n = Vec3::from_str("1 2 3").unwrap();
    assert_eq!(v3(&n), (1.0, 2.0, 3.0));
    assert!(is_general(&Vec3::from_str("1 2")));
    assert!(is_general(&Vec3::from_str("1 2 3 4")));
}

#[test]
fn float_literals_follow_rust_grammar() {
    for good in ["1", "-1", "+1.5", "1.", ".5", "1e5", "1E-5", "2.5e+3", "inf", "-Infinity", "NaN"] {
        let s = Scalar::parse(good).unwrap();
        assert_eq!(s.text(), good);
        assert!(good.parse::<f32>().is_ok());
    }
    for bad in ["", ".", "e5", "1e", "1e+", "--1", "1.2.3", "0x10", "in", "nana", "1 2"] {
        assert!(Scalar::parse(bad).is_none(), "{}", bad);
        assert!(bad.parse::<f32>().is_err());
    }
}

#[test]
fn split_lines_keeps_every_piece() {
    let lines = split_lines("a\r\nb\n\nc");
    assert_eq!(lines, vec!["a\r".to_string(), "b".to_string(), "".to_string(), "c".to_string()]);
    assert_eq!(split_lines(""), vec!["".to_string()]);
}

#[test]
fn parse_two_component_vector() {
    let v = scene_loader::vector::Vec2::from_str("0.5 -1").unwrap();
    assert_eq!((num(&v.x), num(&v.y)), (0.5, -1.0));
    assert!(is_general(&scene_loader::vector::Vec2::from_str("0.5")));
    assert!(is_general(&scene_loader::vector::Vec2::from_str("1 2 3")));
}
