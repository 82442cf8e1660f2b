use scene_loader::error::ParseError;
use scene_loader::material::{parse_color, IlluminationModel, Material, MaterialColor};
use scene_loader::mesh::{LineAction, MeshDescriptions, ObjLoader};
use scene_loader::number::Scalar;

fn toks(s: &str) -> Vec<Vec<char>> {
    s.split_whitespace().map(|t| t.chars().collect()).collect()
}

fn num(s: &Scalar) -> f32 {
    s.text().parse::<f32>().unwrap()
}

fn is_general<T>(r: &Result<T, ParseError>) -> bool {
    matches!(r, Err(ParseError::GeneralError(_)))
}

fn library(text: &str) -> Result<Vec<Material>, ParseError> {
    Material::from_source(text, "lib")
}

#[test]
fn two_newmtl_sections_give_two_materials() {
    let ms = library("newmtl A\nNs 10\nKd 1 0 0\nillum 2\nnewmtl B\nd 0.5\nmap_Kd b.png\n").unwrap();
    assert_eq!(ms.len(), 2);
    assert_eq!(ms[0].get_name(), "A");
    assert_eq!(num(&ms[0].ns), 10.0);
    assert_eq!(ms[0].illum, IlluminationModel::HighlightOn);
    assert!(matches!(ms[0].kd, MaterialColor::RGB(..)));
    assert_eq!(num(&ms[0].d), 1.0);
    assert_eq!(ms[0].map_kd, None);
    assert_eq!(ms[1].get_name(), "B");
    assert_eq!(num(&ms[1].d), 0.5);
    assert_eq!(num(&ms[1].ns), 0.0);
    assert_eq!(ms[1].illum, IlluminationModel::ColorOnAmbientOn);
    assert!(matches!(ms[1].kd, MaterialColor::Unset));
    assert_eq!(ms[1].map_kd.as_deref(), Some("lib/b.png"));
}

#[test]
fn no_newmtl_gives_no_material() {
    assert!(library("# only a comment\nNs 3\n").unwrap().is_empty());
    assert!(library("").unwrap().is_empty());
}

#[test]
fn fields_before_first_newmtl_carry_over() {
    let ms = library("Ns 7\nnewmtl A\n").unwrap();
    assert_eq!(num(&ms[0].ns), 7.0);
}

#[test]
fn spectral_and_rgb_colors() {
    match parse_color(&toks("spectral rough.refl 0.9")).unwrap() {
        MaterialColor::Spectral(f, Some(k)) => {
            assert_eq!(f, "rough.refl");
            assert_eq!(num(&k), 0.9);
        }
        other => panic!("{:?}", other),
    }
    match parse_color(&toks("0.2 0.2 0.2")).unwrap() {
        MaterialColor::RGB(r, g, b) => assert_eq!((num(&r), num(&g), num(&b)), (0.2, 0.2, 0.2)),
        other => panic!("{:?}", other),
    }
    let ms = library("newmtl m\nKd spectral rough.refl 0.9\nKa 0.2 0.2 0.2\n").unwrap();
    assert!(matches!(&ms[0].kd, MaterialColor::Spectral(f, Some(_)) if f == "rough.refl"));
    assert!(matches!(ms[0].ka, MaterialColor::RGB(..)));
}

#[test]
fn xyz_and_spectral_without_factor() {
    match parse_color(&toks("xyz 0.1 0.2 0.3")).unwrap() {
        MaterialColor::CIEXYZ(x, y, z) => assert_eq!((num(&x), num(&y), num(&z)), (0.1, 0.2, 0.3)),
        other => panic!("{:?}", other),
    }
    assert!(matches!(parse_color(&toks("spectral s.rfl")).unwrap(), MaterialColor::Spectral(_, None)));
}

#[test]
fn malformed_colors_fail() {
    for bad in ["", "spectral", "spectral f x", "xyz 1 2", "xyz 1 2 q", "1 2", "r g b"] {
        assert!(is_general(&parse_color(&toks(bad))), "{}", bad);
    }
    assert!(is_general(&library("newmtl m\nKs 1 2\n")));
}

#[test]
fn illumination_models() {
    let ms = library("newmtl m\nillum 10\n").unwrap();
    assert_eq!(ms[0].illum, IlluminationModel::CastsShadowsOntoInvisibleSurfaces);
    assert_eq!(ms[0].illum.number(), 10);
    assert!(is_general(&library("newmtl m\nillum 11\n")));
    assert!(is_general(&library("newmtl m\nillum -1\n")));
    assert!(is_general(&library("newmtl m\nillum\n")));
    assert_eq!(IlluminationModel::from_number(0), Some(IlluminationModel::ColorOnAmbientOff));
    assert_eq!(IlluminationModel::default(), IlluminationModel::ColorOnAmbientOff);
}

#[test]
fn bump_maps_land_in_emissive_slot() {
    let ms = library("newmtl m\nbump b.png\n").unwrap();
    assert_eq!(ms[0].map_ke.as_deref(), Some("lib/b.png"));
    assert_eq!(ms[0].map_bump, None);
    let ms = library("newmtl m\nmap_bump c.png\nmap_Ka a.png\nmap_refl r.png\nmap_d o.png\n").unwrap();
    assert_eq!(ms[0].map_ke.as_deref(), Some("lib/c.png"));
    assert_eq!(ms[0].map_ka.as_deref(), Some("lib/a.png"));
    assert_eq!(ms[0].map_refl.as_deref(), Some("lib/r.png"));
    assert_eq!(ms[0].map_d.as_deref(), Some("lib/o.png"));
}

#[test]
fn unknown_material_directive() {
    match library("newmtl m\nfoo 1\n") {
        Err(ParseError::UnknownToken(t)) => assert_eq!(t, "foo"),
        other => panic!("{:?}", other),
    }
    assert!(is_general(&library("newmtl\n")));
    assert!(is_general(&library("newmtl m\nNs x\n")));
}

fn load_with_library(obj: &str, mtl: &str) -> MeshDescriptions {
    let mut loader = ObjLoader::new("scene");
    for line in obj.lines() {
        if let LineAction::LoadLibrary(path) = loader.process_line(line).unwrap() {
            assert_eq!(path, "scene/box.mtl");
            loader.add_materials(Material::from_source(mtl, "scene").unwrap());
        }
    }
    loader.finish()
}

#[test]
fn minimal_file_gives_one_mesh() {
    let obj = "mtllib box.mtl\nv 0 0 0\nv 1 0 0\nv 1 1 0\nvn 0 0 1\ng box\nusemtl wood\nf 1//1 2//1 3//1\n";
    let scene = load_with_library(obj, "newmtl wood\nKd 0.5 0.3 0.1\n");
    assert_eq!(scene.meshes.len(), 1);
    assert_eq!(scene.meshes[0].vertices.len(), 3);
    assert_eq!(scene.meshes[0].material, "wood");
    assert_eq!(scene.meshes[0].name, "box");
    assert_eq!(scene.materials.len(), 1);
    let wood = scene.get_material(&"wood".to_string()).unwrap();
    assert!(matches!(wood.kd, MaterialColor::RGB(..)));
    assert!(scene.get_material(&"stone".to_string()).is_none());
}

#[test]
fn later_material_of_same_name_wins() {
    let obj = "mtllib box.mtl\nmtllib box.mtl\n";
    let mut loader = ObjLoader::new("scene");
    let mut round = 0;
    for line in obj.lines() {
        if let LineAction::LoadLibrary(_) = loader.process_line(line).unwrap() {
            round += 1;
            let text = if round == 1 { "newmtl a\nNs 1\nnewmtl b\n" } else { "newmtl a\nNs 2\n" };
            loader.add_materials(Material::from_source(text, "scene").unwrap());
        }
    }
    let scene = loader.finish();
    assert_eq!(scene.materials.len(), 2);
    assert_eq!(scene.materials[0].get_name(), "a");
    assert_eq!(num(&scene.materials[0].ns), 2.0);
    assert_eq!(scene.materials[1].get_name(), "b");
}

#[test]
fn illumination_numbers_round_trip() {
    for n in 0..=10usize {
        let model = IlluminationModel::from_number(n).unwrap();
        assert_eq!(model.number(), n);
    }
    assert_eq!(IlluminationModel::from_number(11), None);
    let ms = library("newmtl m\nillum +007\n").unwrap();
    assert_eq!(ms[0].illum, IlluminationModel::TransparencyRefractionOnReflectionFresnelOnRaytraceOn);
}

#[test]
fn duplicate_names_in_one_library_keep_the_last() {
    let ms = library("newmtl a\nNs 1\nnewmtl a\nNs 2\n").unwrap();
    assert_eq!(ms.len(), 2);
    let mut loader = ObjLoader::new("x");
    loader.add_materials(ms);
    let scene = loader.finish();
    assert_eq!(scene.materials.len(), 1);
    assert_eq!(num(&scene.materials[0].ns), 2.0);
}

#[test]
fn keywords_are_case_sensitive() {
    match library("NEWMTL a\n") {
        Err(ParseError::UnknownToken(t)) => assert_eq!(t, "NEWMTL"),
        other => panic!("{:?}", other),
    }
    let mut loader = ObjLoader::new("x");
    match loader.process_line("V 1 2 3") {
        Err(ParseError::UnknownToken(t)) => assert_eq!(t, "V"),
        other => panic!("{:?}", other),
    }
}
