//! Materials and the material-library format: colour fields, illumination
//! models, and the reader that turns a library's text into named materials.
use vstd::prelude::*;
use crate::error::{ErrorView, ParseError};
use crate::number::{is_float_literal, nat_literal, nat_literal_at_most, Scalar};
use crate::text::{chars_of, is_word, split, split_on, split_tokens, string_of, tokens, views};
use crate::vector::{one_text, zero_text};

verus! {

/// How a material is lit, by the number that names it in a library (0 to 10).
#[derive(Clone, Copy, Debug, PartialEq, Eq, Structural)]
pub enum IlluminationModel {
    /// 0: colour on, ambient off.
    ColorOnAmbientOff,
    /// 1: colour on, ambient on.
    ColorOnAmbientOn,
    /// 2: highlight on.
    HighlightOn,
    /// 3: reflection on, ray trace on.
    ReflectionAndRaytraceOn,
    /// 4: glass transparency on, reflection by ray trace on.
    TransparencyGlassOnReflectionRaytraceOn,
    /// 5: Fresnel reflection on, ray trace on.
    ReflectionFresnelOnRaytraceOn,
    /// 6: refraction on, Fresnel reflection off, ray trace on.
    TransparencyRefractionOnReflectionFresnelOffRaytraceOn,
    /// 7: refraction on, Fresnel reflection on, ray trace on.
    TransparencyRefractionOnReflectionFresnelOnRaytraceOn,
    /// 8: reflection on, ray trace off.
    ReflectionOnRaytraceOff,
    /// 9: glass transparency on, reflection by ray trace off.
    TransparencyGlassOnReflectionRaytraceOff,
    /// 10: casts shadows onto invisible surfaces.
    CastsShadowsOntoInvisibleSurfaces,
}

/// The illumination model that number `n` names, if any.
pub open spec fn illumination_of(n: nat) -> Option<IlluminationModel> {
    if n == 0 {
        Some(IlluminationModel::ColorOnAmbientOff)
    } else if n == 1 {
        Some(IlluminationModel::ColorOnAmbientOn)
    } else if n == 2 {
        Some(IlluminationModel::HighlightOn)
    } else if n == 3 {
        Some(IlluminationModel::ReflectionAndRaytraceOn)
    } else if n == 4 {
        Some(IlluminationModel::TransparencyGlassOnReflectionRaytraceOn)
    } else if n == 5 {
        Some(IlluminationModel::ReflectionFresnelOnRaytraceOn)
    } else if n == 6 {
        Some(IlluminationModel::TransparencyRefractionOnReflectionFresnelOffRaytraceOn)
    } else if n == 7 {
        Some(IlluminationModel::TransparencyRefractionOnReflectionFresnelOnRaytraceOn)
    } else if n == 8 {
        Some(IlluminationModel::ReflectionOnRaytraceOff)
    } else if n == 9 {
        Some(IlluminationModel::TransparencyGlassOnReflectionRaytraceOff)
    } else if n == 10 {
        Some(IlluminationModel::CastsShadowsOntoInvisibleSurfaces)
    } else {
        None
    }
}

impl IlluminationModel {
    /// The model that number `n` names, or `None` past 10.
    pub fn from_number(n: usize) -> (r: Option<IlluminationModel>)
        ensures
            r == illumination_of(n as nat),
    {
        match n {
            0 => Some(IlluminationModel::ColorOnAmbientOff),
            1 => Some(IlluminationModel::ColorOnAmbientOn),
            2 => Some(IlluminationModel::HighlightOn),
            3 => Some(IlluminationModel::ReflectionAndRaytraceOn),
            4 => Some(IlluminationModel::TransparencyGlassOnReflectionRaytraceOn),
            5 => Some(IlluminationModel::ReflectionFresnelOnRaytraceOn),
            6 => Some(IlluminationModel::TransparencyRefractionOnReflectionFresnelOffRaytraceOn),
            7 => Some(IlluminationModel::TransparencyRefractionOnReflectionFresnelOnRaytraceOn),
            8 => Some(IlluminationModel::ReflectionOnRaytraceOff),
            9 => Some(IlluminationModel::TransparencyGlassOnReflectionRaytraceOff),
            10 => Some(IlluminationModel::CastsShadowsOntoInvisibleSurfaces),
            _ => None,
        }
    }

    /// The number that names the model.
    pub fn number(&self) -> (r: usize)
        ensures
            illumination_of(r as nat) == Some(*self),
    {
        match self {
            IlluminationModel::ColorOnAmbientOff => 0,
            IlluminationModel::ColorOnAmbientOn => 1,
            IlluminationModel::HighlightOn => 2,
            IlluminationModel::ReflectionAndRaytraceOn => 3,
            IlluminationModel::TransparencyGlassOnReflectionRaytraceOn => 4,
            IlluminationModel::ReflectionFresnelOnRaytraceOn => 5,
            IlluminationModel::TransparencyRefractionOnReflectionFresnelOffRaytraceOn => 6,
            IlluminationModel::TransparencyRefractionOnReflectionFresnelOnRaytraceOn => 7,
            IlluminationModel::ReflectionOnRaytraceOff => 8,
            IlluminationModel::TransparencyGlassOnReflectionRaytraceOff => 9,
            IlluminationModel::CastsShadowsOntoInvisibleSurfaces => 10,
        }
    }
}

impl Default for IlluminationModel {
    fn default() -> (r: IlluminationModel)
        ensures
            r == IlluminationModel::ColorOnAmbientOff,
    {
        IlluminationModel::ColorOnAmbientOff
    }
}

/// A colour field of a material.
#[derive(Debug)]
pub enum MaterialColor {
    /// Not set.
    Unset,
    /// Red, green and blue.
    RGB(Scalar, Scalar, Scalar),
    /// CIE 1931 XYZ.
    CIEXYZ(Scalar, Scalar, Scalar),
    /// A spectral curve file, with an optional factor.
    Spectral(String, Option<Scalar>),
}

/// The abstract value of a `MaterialColor`.
pub enum ColorView {
    Unset,
    RGB(Seq<char>, Seq<char>, Seq<char>),
    CIEXYZ(Seq<char>, Seq<char>, Seq<char>),
    Spectral(Seq<char>, Option<Seq<char>>),
}

impl View for MaterialColor {
    type V = ColorView;

    open spec fn view(&self) -> ColorView {
        match self {
            MaterialColor::Unset => ColorView::Unset,
            MaterialColor::RGB(r, g, b) => ColorView::RGB(r@, g@, b@),
            MaterialColor::CIEXYZ(x, y, z) => ColorView::CIEXYZ(x@, y@, z@),
            MaterialColor::Spectral(f, k) => ColorView::Spectral(
                f@,
                match k {
                    Some(s) => Some(s@),
                    None => None,
                },
            ),
        }
    }
}

/// The colour that the arguments of a colour directive give, decided by the
/// first token: `spectral file [factor]`, `xyz x y z`, or `r g b`. Tokens
/// after those are ignored. `None` when a required token is missing or a
/// numeric one is not a literal; a colour is never the unset variant.
pub open spec fn color_of(args: Seq<Seq<char>>) -> Option<ColorView> {
    if args.len() == 0 {
        None
    } else if args[0] == "spectral"@ {
        if args.len() < 2 {
            None
        } else if args.len() == 2 {
            Some(ColorView::Spectral(args[1], None))
        } else if is_float_literal(args[2]) {
            Some(ColorView::Spectral(args[1], Some(args[2])))
        } else {
            None
        }
    } else if args[0] == "xyz"@ {
        if args.len() >= 4 && is_float_literal(args[1]) && is_float_literal(args[2])
            && is_float_literal(args[3]) {
            Some(ColorView::CIEXYZ(args[1], args[2], args[3]))
        } else {
            None
        }
    } else {
        if args.len() >= 3 && is_float_literal(args[0]) && is_float_literal(args[1])
            && is_float_literal(args[2]) {
            Some(ColorView::RGB(args[0], args[1], args[2]))
        } else {
            None
        }
    }
}

fn general(detail: &str) -> (e: ParseError)
    ensures
        e@ == ErrorView::General,
{
    ParseError::GeneralError(detail.to_owned())
}

/// The literal at `args[i]`.
fn literal_at(args: &Vec<Vec<char>>, i: usize) -> (r: Result<Scalar, ParseError>)
    ensures
        i < args@.len() && is_float_literal(args@[i as int]@) ==> r is Ok && r->Ok_0@
            == args@[i as int]@,
        !(i < args@.len() && is_float_literal(args@[i as int]@)) ==> r is Err && r->Err_0@
            == ErrorView::General,
{
    if i >= args.len() {
        return Err(general("missing number"));
    }
    match Scalar::from_chars(&args[i]) {
        Some(s) => Ok(s),
        None => Err(general("malformed number")),
    }
}

/// Reads the arguments of a colour directive: see `color_of`.
pub fn parse_color(args: &Vec<Vec<char>>) -> (r: Result<MaterialColor, ParseError>)
    ensures
        match color_of(views(args@)) {
            Some(c) => r is Ok && r->Ok_0@ == c,
            None => r is Err && r->Err_0@ == ErrorView::General,
        },
{
    let ghost a = views(args@);
    if args.len() == 0 {
        return Err(general("missing colour"));
    }
    if is_word(&args[0], "spectral") {
        if args.len() < 2 {
            return Err(general("missing spectral file"));
        }
        let file = string_of(&args[1]);
        if args.len() == 2 {
            return Ok(MaterialColor::Spectral(file, None));
        }
        let factor = literal_at(args, 2)?;
        Ok(MaterialColor::Spectral(file, Some(factor)))
    } else if is_word(&args[0], "xyz") {
        let x = literal_at(args, 1)?;
        let y = literal_at(args, 2)?;
        let z = literal_at(args, 3)?;
        Ok(MaterialColor::CIEXYZ(x, y, z))
    } else {
        let r = literal_at(args, 0)?;
        let g = literal_at(args, 1)?;
        let b = literal_at(args, 2)?;
        Ok(MaterialColor::RGB(r, g, b))
    }
}

} // verus!

verus! {

/// A named material read from a library.
#[derive(Debug)]
pub struct Material {
    pub name: String,
    /// Specular exponent.
    pub ns: Scalar,
    /// Optical density.
    pub ni: Scalar,
    /// Dissolve factor (opacity).
    pub d: Scalar,
    /// Transparency factor.
    pub tr: Scalar,
    /// Transmission filter.
    pub tf: MaterialColor,
    pub illum: IlluminationModel,
    /// Ambient reflectivity.
    pub ka: MaterialColor,
    /// Diffuse reflectivity.
    pub kd: MaterialColor,
    /// Specular reflectivity.
    pub ks: MaterialColor,
    /// Emissive reflectivity.
    pub ke: MaterialColor,
    /// Ambient texture map.
    pub map_ka: Option<String>,
    /// Diffuse texture map.
    pub map_kd: Option<String>,
    /// Reflection map.
    pub map_refl: Option<String>,
    /// Emissive map; `map_bump` and `bump` directives are stored here too.
    pub map_ke: Option<String>,
    /// Bump map; no directive fills it.
    pub map_bump: Option<String>,
    /// Opacity map.
    pub map_d: Option<String>,
}

/// The abstract value of a `Material`.
pub struct MaterialView {
    pub name: Seq<char>,
    pub ns: Seq<char>,
    pub ni: Seq<char>,
    pub d: Seq<char>,
    pub tr: Seq<char>,
    pub tf: ColorView,
    pub illum: IlluminationModel,
    pub ka: ColorView,
    pub kd: ColorView,
    pub ks: ColorView,
    pub ke: ColorView,
    pub map_ka: Option<Seq<char>>,
    pub map_kd: Option<Seq<char>>,
    pub map_refl: Option<Seq<char>>,
    pub map_ke: Option<Seq<char>>,
    pub map_bump: Option<Seq<char>>,
    pub map_d: Option<Seq<char>>,
}

pub open spec fn opt_view(o: Option<String>) -> Option<Seq<char>> {
    match o {
        Some(s) => Some(s@),
        None => None,
    }
}

impl View for Material {
    type V = MaterialView;

    open spec fn view(&self) -> MaterialView {
        MaterialView {
            name: self.name@,
            ns: self.ns@,
            ni: self.ni@,
            d: self.d@,
            tr: self.tr@,
            tf: self.tf@,
            illum: self.illum,
            ka: self.ka@,
            kd: self.kd@,
            ks: self.ks@,
            ke: self.ke@,
            map_ka: opt_view(self.map_ka),
            map_kd: opt_view(self.map_kd),
            map_refl: opt_view(self.map_refl),
            map_ke: opt_view(self.map_ke),
            map_bump: opt_view(self.map_bump),
            map_d: opt_view(self.map_d),
        }
    }
}

/// The views of a sequence of materials.
pub open spec fn material_views(ms: Seq<Material>) -> Seq<MaterialView> {
    ms.map_values(|m: Material| m@)
}

/// A material named `name` with every other field at its default: exponent,
/// density and transparency `0.0`, dissolve `1.0`, illumination model 1, no
/// colours and no maps.
pub open spec fn fresh_material(name: Seq<char>) -> MaterialView {
    MaterialView {
        name,
        ns: zero_text(),
        ni: zero_text(),
        d: one_text(),
        tr: zero_text(),
        tf: ColorView::Unset,
        illum: IlluminationModel::ColorOnAmbientOn,
        ka: ColorView::Unset,
        kd: ColorView::Unset,
        ks: ColorView::Unset,
        ke: ColorView::Unset,
        map_ka: None,
        map_kd: None,
        map_refl: None,
        map_ke: None,
        map_bump: None,
        map_d: None,
    }
}

/// A map path made relative to the library's directory.
pub open spec fn rebase(p: Option<Seq<char>>, dir: Seq<char>) -> Option<Seq<char>> {
    match p {
        Some(m) => Some(dir + seq!['/'] + m),
        None => None,
    }
}

/// A material as it is emitted: each map path is put under `dir`.
pub open spec fn finished(m: MaterialView, dir: Seq<char>) -> MaterialView {
    MaterialView {
        map_ka: rebase(m.map_ka, dir),
        map_kd: rebase(m.map_kd, dir),
        map_refl: rebase(m.map_refl, dir),
        map_ke: rebase(m.map_ke, dir),
        map_bump: rebase(m.map_bump, dir),
        map_d: rebase(m.map_d, dir),
        ..m
    }
}

/// Where a library reader stands: the materials emitted so far, the fields of
/// the one in progress, and whether a `newmtl` has named it yet.
pub struct LibraryState {
    pub done: Seq<MaterialView>,
    pub current: MaterialView,
    pub named: bool,
}

pub open spec fn library_start() -> LibraryState {
    LibraryState { done: seq![], current: fresh_material(seq![]), named: false }
}

pub open spec fn first_arg(args: Seq<Seq<char>>) -> Option<Seq<char>> {
    if args.len() > 0 {
        Some(args[0])
    } else {
        None
    }
}

pub open spec fn first_literal(args: Seq<Seq<char>>) -> Option<Seq<char>> {
    if args.len() > 0 && is_float_literal(args[0]) {
        Some(args[0])
    } else {
        None
    }
}

/// The illumination model that the first argument names.
pub open spec fn illum_arg(args: Seq<Seq<char>>) -> Option<IlluminationModel> {
    match first_arg(args) {
        Some(t) => match nat_literal(t) {
            Some(n) => illumination_of(n),
            None => None,
        },
        None => None,
    }
}

/// The state with `current` replaced, or a general error when the directive's
/// arguments gave nothing.
pub open spec fn with_current(st: LibraryState, m: Option<MaterialView>) -> Result<
    LibraryState,
    ErrorView,
> {
    match m {
        Some(c) => Ok(LibraryState { current: c, ..st }),
        None => Err(ErrorView::General),
    }
}

/// One line of a material library, given as its tokens.
pub open spec fn library_line(st: LibraryState, toks: Seq<Seq<char>>, dir: Seq<char>) -> Result<
    LibraryState,
    ErrorView,
> {
    if toks.len() == 0 {
        Ok(st)
    } else {
        let key = toks[0];
        let args = toks.drop_first();
        let m = st.current;
        if key == "newmtl"@ {
            match first_arg(args) {
                Some(name) => Ok(
                    LibraryState {
                        done: if st.named {
                            st.done.push(finished(m, dir))
                        } else {
                            st.done
                        },
                        current: if st.named {
                            fresh_material(name)
                        } else {
                            MaterialView { name, ..m }
                        },
                        named: true,
                    },
                ),
                None => Err(ErrorView::General),
            }
        } else if key == "Ns"@ {
            with_current(
                st,
                match first_literal(args) {
                    Some(v) => Some(MaterialView { ns: v, ..m }),
                    None => None,
                },
            )
        } else if key == "Ni"@ {
            with_current(
                st,
                match first_literal(args) {
                    Some(v) => Some(MaterialView { ni: v, ..m }),
                    None => None,
                },
            )
        } else if key == "d"@ {
            with_current(
                st,
                match first_literal(args) {
                    Some(v) => Some(MaterialView { d: v, ..m }),
                    None => None,
                },
            )
        } else if key == "Tr"@ {
            with_current(
                st,
                match first_literal(args) {
                    Some(v) => Some(MaterialView { tr: v, ..m }),
                    None => None,
                },
            )
        } else if key == "illum"@ {
            with_current(
                st,
                match illum_arg(args) {
                    Some(i) => Some(MaterialView { illum: i, ..m }),
                    None => None,
                },
            )
        } else if key == "Ka"@ {
            with_current(
                st,
                match color_of(args) {
                    Some(c) => Some(MaterialView { ka: c, ..m }),
                    None => None,
                },
            )
        } else if key == "Kd"@ {
            with_current(
                st,
                match color_of(args) {
                    Some(c) => Some(MaterialView { kd: c, ..m }),
                    None => None,
                },
            )
        } else if key == "Ks"@ {
            with_current(
                st,
                match color_of(args) {
                    Some(c) => Some(MaterialView { ks: c, ..m }),
                    None => None,
                },
            )
        } else if key == "Ke"@ {
            with_current(
                st,
                match color_of(args) {
                    Some(c) => Some(MaterialView { ke: c, ..m }),
                    None => None,
                },
            )
        } else if key == "Tf"@ {
            with_current(
                st,
                match color_of(args) {
                    Some(c) => Some(MaterialView { tf: c, ..m }),
                    None => None,
                },
            )
        } else if key == "map_Ka"@ {
            with_current(
                st,
                match first_arg(args) {
                    Some(p) => Some(MaterialView { map_ka: Some(p), ..m }),
                    None => None,
                },
            )
        } else if key == "map_Kd"@ {
            with_current(
                st,
                match first_arg(args) {
                    Some(p) => Some(MaterialView { map_kd: Some(p), ..m }),
                    None => None,
                },
            )
        } else if key == "map_refl"@ {
            with_current(
                st,
                match first_arg(args) {
                    Some(p) => Some(MaterialView { map_refl: Some(p), ..m }),
                    None => None,
                },
            )
        } else if key == "map_Ke"@ || key == "map_bump"@ || key == "bump"@ {
            with_current(
                st,
                match first_arg(args) {
                    Some(p) => Some(MaterialView { map_ke: Some(p), ..m }),
                    None => None,
                },
            )
        } else if key == "map_d"@ {
            with_current(
                st,
                match first_arg(args) {
                    Some(p) => Some(MaterialView { map_d: Some(p), ..m }),
                    None => None,
                },
            )
        } else if key == "#"@ {
            Ok(st)
        } else {
            Err(ErrorView::UnknownToken(key))
        }
    }
}

/// The reader's state after the given lines, or the first error.
pub open spec fn library_run(lines: Seq<Seq<char>>, dir: Seq<char>) -> Result<LibraryState, ErrorView>
    decreases lines.len(),
{
    if lines.len() == 0 {
        Ok(library_start())
    } else {
        match library_run(lines.drop_last(), dir) {
            Ok(st) => library_line(st, tokens(lines.last()), dir),
            Err(e) => Err(e),
        }
    }
}

/// The materials of a finished reader: those emitted, then the one in
/// progress if a `newmtl` named it.
pub open spec fn library_finish(st: LibraryState, dir: Seq<char>) -> Seq<MaterialView> {
    if st.named {
        st.done.push(finished(st.current, dir))
    } else {
        st.done
    }
}

/// The materials that the library text `text`, kept in directory `dir`,
/// defines, in order, or the error of its first bad line.
pub open spec fn parse_library(text: Seq<char>, dir: Seq<char>) -> Result<Seq<MaterialView>, ErrorView> {
    match library_run(split(text, '\n'), dir) {
        Ok(st) => Ok(library_finish(st, dir)),
        Err(e) => Err(e),
    }
}

proof fn lemma_library_error_stays(lines: Seq<Seq<char>>, dir: Seq<char>, i: int)
    requires
        0 <= i <= lines.len(),
        library_run(lines.take(i), dir) is Err,
    ensures
        library_run(lines, dir) == library_run(lines.take(i), dir),
    decreases lines.len(),
{
    if i < lines.len() {
        assert(lines.drop_last().take(i) == lines.take(i));
        lemma_library_error_stays(lines.drop_last(), dir, i);
    } else {
        assert(lines.take(i) == lines);
    }
}

} // verus!

verus! {

/// A material named `name` with its defaults: see `fresh_material`.
fn new_material(name: String) -> (r: Material)
    ensures
        r@ == fresh_material(name@),
{
    Material {
        name,
        ns: Scalar::zero(),
        ni: Scalar::zero(),
        d: Scalar::one(),
        tr: Scalar::zero(),
        tf: MaterialColor::Unset,
        illum: IlluminationModel::ColorOnAmbientOn,
        ka: MaterialColor::Unset,
        kd: MaterialColor::Unset,
        ks: MaterialColor::Unset,
        ke: MaterialColor::Unset,
        map_ka: None,
        map_kd: None,
        map_refl: None,
        map_ke: None,
        map_bump: None,
        map_d: None,
    }
}

/// `dir/p`, for a map path `p`.
fn rebase_path(p: Option<String>, dir: &Vec<char>) -> (r: Option<String>)
    ensures
        opt_view(r) == rebase(opt_view(p), dir@),
{
    match p {
        Some(m) => {
            let mut out = dir.clone();
            out.push('/');
            let ms = chars_of(m.as_str());
            let mut i: usize = 0;
            let ghost base = out@;
            while i < ms.len()
                invariant
                    i <= ms.len(),
                    base == dir@ + seq!['/'],
                    out@ == base + ms@.take(i as int),
                decreases ms.len() - i,
            {
                out.push(ms[i]);
                proof {
                    assert(ms@.take(i + 1) == ms@.take(i as int).push(ms@[i as int]));
                }
                i += 1;
            }
            proof {
                assert(ms@.take(ms@.len() as int) == ms@);
            }
            Some(string_of(&out))
        },
        None => None,
    }
}

/// A material as it is emitted: see `finished`.
fn finish_material(m: Material, dir: &Vec<char>) -> (r: Material)
    ensures
        r@ == finished(m@, dir@),
{
    Material {
        map_ka: rebase_path(m.map_ka, dir),
        map_kd: rebase_path(m.map_kd, dir),
        map_refl: rebase_path(m.map_refl, dir),
        map_ke: rebase_path(m.map_ke, dir),
        map_bump: rebase_path(m.map_bump, dir),
        map_d: rebase_path(m.map_d, dir),
        ..m
    }
}

/// The state of a library being read.
struct LibraryReader {
    done: Vec<Material>,
    current: Material,
    named: bool,
}

impl View for LibraryReader {
    type V = LibraryState;

    closed spec fn view(&self) -> LibraryState {
        LibraryState { done: material_views(self.done@), current: self.current@, named: self.named }
    }
}

/// The argument at `args[0]`, as a string.
fn first_string(args: &Vec<Vec<char>>) -> (r: Result<String, ParseError>)
    ensures
        match first_arg(views(args@)) {
            Some(a) => r is Ok && r->Ok_0@ == a,
            None => r is Err && r->Err_0@ == ErrorView::General,
        },
{
    if args.len() == 0 {
        Err(general("missing argument"))
    } else {
        Ok(string_of(&args[0]))
    }
}

impl LibraryReader {
    fn new() -> (r: LibraryReader)
        ensures
            r@ == library_start(),
    {
        let r = LibraryReader { done: Vec::new(), current: new_material(String::new()), named: false };
        proof {
            assert(material_views(r.done@) == Seq::<MaterialView>::empty());
            assert(r.current.name@ == Seq::<char>::empty());
        }
        r
    }

    /// Reads one line, given as its tokens: see `library_line`.
    fn read_line(&mut self, toks: &mut Vec<Vec<char>>, dir: &Vec<char>) -> (r: Result<(), ParseError>)
        ensures
            match library_line(old(self)@, views(old(toks)@), dir@) {
                Ok(st) => r is Ok && final(self)@ == st,
                Err(e) => r is Err && r->Err_0@ == e,
            },
    {
        if toks.len() == 0 {
            return Ok(());
        }
        let ghost all = views(toks@);
        let key = toks.remove(0);
        let args: &Vec<Vec<char>> = toks;
        proof {
            assert(views(args@) == all.drop_first());
            assert(key@ == all[0]);
        }
        if is_word(&key, "newmtl") {
            let name = first_string(args)?;
            if self.named {
                let mut m = new_material(name);
                std::mem::swap(&mut m, &mut self.current);
                let f = finish_material(m, dir);
                self.done.push(f);
                proof {
                    assert(material_views(self.done@) == material_views(old(self).done@).push(f@));
                }
            } else {
                self.current.name = name;
            }
            self.named = true;
            Ok(())
        } else if is_word(&key, "Ns") {
            self.current.ns = literal_at(args, 0)?;
            Ok(())
        } else if is_word(&key, "Ni") {
            self.current.ni = literal_at(args, 0)?;
            Ok(())
        } else if is_word(&key, "d") {
            self.current.d = literal_at(args, 0)?;
            Ok(())
        } else if is_word(&key, "Tr") {
            self.current.tr = literal_at(args, 0)?;
            Ok(())
        } else if is_word(&key, "illum") {
            if args.len() == 0 {
                return Err(general("missing illumination model"));
            }
            match nat_literal_at_most(&args[0], 10) {
                Some(n) => match IlluminationModel::from_number(n) {
                    Some(i) => {
                        self.current.illum = i;
                        Ok(())
                    },
                    None => Err(general("bad illumination model")),
                },
                None => {
                    proof {
                        let t = views(args@)[0];
                        if nat_literal(t) is Some {
                            assert(nat_literal(t)->0 > 10);
                        }
                    }
                    Err(general("bad illumination model"))
                },
            }
        } else if is_word(&key, "Ka") {
            self.current.ka = parse_color(args)?;
            Ok(())
        } else if is_word(&key, "Kd") {
            self.current.kd = parse_color(args)?;
            Ok(())
        } else if is_word(&key, "Ks") {
            self.current.ks = parse_color(args)?;
            Ok(())
        } else if is_word(&key, "Ke") {
            self.current.ke = parse_color(args)?;
            Ok(())
        } else if is_word(&key, "Tf") {
            self.current.tf = parse_color(args)?;
            Ok(())
        } else if is_word(&key, "map_Ka") {
            self.current.map_ka = Some(first_string(args)?);
            Ok(())
        } else if is_word(&key, "map_Kd") {
            self.current.map_kd = Some(first_string(args)?);
            Ok(())
        } else if is_word(&key, "map_refl") {
            self.current.map_refl = Some(first_string(args)?);
            Ok(())
        } else if is_word(&key, "map_Ke") || is_word(&key, "map_bump") || is_word(&key, "bump") {
            self.current.map_ke = Some(first_string(args)?);
            Ok(())
        } else if is_word(&key, "map_d") {
            self.current.map_d = Some(first_string(args)?);
            Ok(())
        } else if is_word(&key, "#") {
            Ok(())
        } else {
            Err(ParseError::UnknownToken(string_of(&key)))
        }
    }

    /// The materials read: see `library_finish`.
    fn finish(self, dir: &Vec<char>) -> (r: Vec<Material>)
        ensures
            material_views(r@) == library_finish(self@, dir@),
    {
        let mut done = self.done;
        if self.named {
            let f = finish_material(self.current, dir);
            let ghost before = done@;
            done.push(f);
            proof {
                assert(material_views(done@) == material_views(before).push(f@));
            }
        }
        done
    }
}

impl Material {
    /// A copy of the material's name.
    pub fn get_name(&self) -> (r: String)
        ensures
            r@ == self.name@,
    {
        self.name.clone()
    }

    /// Reads the materials that a material library defines, in order. `text`
    /// is the library's content and `directory` the directory it lies in, under
    /// which map paths are put. See `parse_library`.
    pub fn from_source(text: &str, directory: &str) -> (r: Result<Vec<Material>, ParseError>)
        ensures
            match parse_library(text@, directory@) {
                Ok(ms) => r is Ok && material_views(r->Ok_0@) == ms,
                Err(e) => r is Err && r->Err_0@ == e,
            },
    {
        let dir = chars_of(directory);
        let lines = split_on(&chars_of(text), '\n');
        let ghost ls = views(lines@);
        let mut reader = LibraryReader::new();
        let mut i: usize = 0;
        while i < lines.len()
            invariant
                i <= lines.len(),
                ls == views(lines@),
                ls == split(text@, '\n'),
                dir@ == directory@,
                library_run(ls.take(i as int), dir@) == Ok::<LibraryState, ErrorView>(reader@),
            decreases lines.len() - i,
        {
            proof {
                assert(ls.take(i + 1).drop_last() == ls.take(i as int));
                assert(ls.take(i + 1).last() == lines@[i as int]@);
            }
            let mut toks = split_tokens(&lines[i]);
            match reader.read_line(&mut toks, &dir) {
                Ok(()) => {},
                Err(e) => {
                    proof {
                        lemma_library_error_stays(ls, dir@, i + 1);
                    }
                    return Err(e);
                },
            }
            i += 1;
        }
        proof {
            assert(ls.take(ls.len() as int) == ls);
        }
        Ok(reader.finish(&dir))
    }
}

} // verus!

verus! {

/// A `newmtl name` line emits the material in progress, if one was named,
/// with its map paths put under the library's directory, and starts the
/// material `name`: with default fields when one was emitted, and with the
/// fields set so far when none was.
pub proof fn lemma_newmtl_emits_previous(st: LibraryState, toks: Seq<Seq<char>>, dir: Seq<char>)
    requires
        toks.len() >= 2,
        toks[0] == "newmtl"@,
    ensures
        library_line(st, toks, dir) == Ok::<LibraryState, ErrorView>(
            LibraryState {
                done: if st.named {
                    st.done.push(finished(st.current, dir))
                } else {
                    st.done
                },
                current: if st.named {
                    fresh_material(toks[1])
                } else {
                    MaterialView { name: toks[1], ..st.current }
                },
                named: true,
            },
        ),
{
    assert(toks.drop_first()[0] == toks[1]);
}

/// Any other line that is read without error changes only the fields of
/// the material in progress: it emits nothing and keeps the name.
pub proof fn lemma_field_line_keeps_materials(st: LibraryState, toks: Seq<Seq<char>>, dir: Seq<char>)
    requires
        toks.len() > 0 ==> toks[0] != "newmtl"@,
        library_line(st, toks, dir) is Ok,
    ensures
        library_line(st, toks, dir)->Ok_0.done == st.done,
        library_line(st, toks, dir)->Ok_0.named == st.named,
        library_line(st, toks, dir)->Ok_0.current.name == st.current.name,
{
}

} // verus!

verus! {

/// The line does not start with `newmtl`.
pub open spec fn opens_no_material(line: Seq<char>) -> bool {
    tokens(line).len() > 0 ==> tokens(line)[0] != "newmtl"@
}

proof fn lemma_prefix_reads(prefix: Seq<Seq<char>>, more: Seq<Seq<char>>, dir: Seq<char>)
    requires
        library_run(prefix + more, dir) is Ok,
    ensures
        library_run(prefix, dir) is Ok,
{
    let all = prefix + more;
    assert(all.take(prefix.len() as int) == prefix);
    if library_run(prefix, dir) is Err {
        lemma_library_error_stays(all, dir, prefix.len() as int);
    }
}

proof fn lemma_field_lines_keep_materials(prefix: Seq<Seq<char>>, fields: Seq<Seq<char>>, dir: Seq<char>)
    requires
        forall|i: int| 0 <= i < fields.len() ==> opens_no_material(#[trigger] fields[i]),
        library_run(prefix + fields, dir) is Ok,
    ensures
        library_run(prefix, dir) is Ok,
        library_run(prefix + fields, dir)->Ok_0.done == library_run(prefix, dir)->Ok_0.done,
        library_run(prefix + fields, dir)->Ok_0.named == library_run(prefix, dir)->Ok_0.named,
        library_run(prefix + fields, dir)->Ok_0.current.name == library_run(
            prefix,
            dir,
        )->Ok_0.current.name,
    decreases fields.len(),
{
    if fields.len() == 0 {
        assert(prefix + fields == prefix);
    } else {
        let all = prefix + fields;
        let shorter = fields.drop_last();
        assert(all.drop_last() == prefix + shorter);
        assert(all.last() == fields.last());
        assert((prefix + shorter) + seq![fields.last()] == all);
        lemma_prefix_reads(prefix + shorter, seq![fields.last()], dir);
        assert(opens_no_material(fields[fields.len() - 1]));
        lemma_field_lines_keep_materials(prefix, shorter, dir);
        let st = library_run(prefix + shorter, dir)->Ok_0;
        lemma_field_line_keeps_materials(st, tokens(fields.last()), dir);
    }
}

/// A library of two sections, a `newmtl` line naming `a` with the lines that
/// set its fields, then a `newmtl` line naming `b` with its own, read without
/// error, defines exactly two materials: first `a`, with the fields set in its
/// section, then `b`.
pub proof fn lemma_two_sections_two_materials(
    head_a: Seq<char>,
    fields_a: Seq<Seq<char>>,
    head_b: Seq<char>,
    fields_b: Seq<Seq<char>>,
    dir: Seq<char>,
)
    requires
        tokens(head_a).len() == 2,
        tokens(head_a)[0] == "newmtl"@,
        tokens(head_b).len() == 2,
        tokens(head_b)[0] == "newmtl"@,
        forall|i: int| 0 <= i < fields_a.len() ==> opens_no_material(#[trigger] fields_a[i]),
        forall|i: int| 0 <= i < fields_b.len() ==> opens_no_material(#[trigger] fields_b[i]),
        library_run(seq![head_a] + fields_a + seq![head_b] + fields_b, dir) is Ok,
    ensures
        ({
            let ms = library_finish(
                library_run(seq![head_a] + fields_a + seq![head_b] + fields_b, dir)->Ok_0,
                dir,
            );
            &&& ms.len() == 2
            &&& ms[0].name == tokens(head_a)[1]
            &&& ms[1].name == tokens(head_b)[1]
            &&& ms[0] == finished(library_run(seq![head_a] + fields_a, dir)->Ok_0.current, dir)
        }),
{
    let one = seq![head_a];
    let sec_a = one + fields_a;
    let upto_b = sec_a + seq![head_b];
    let all = upto_b + fields_b;
    assert(seq![head_a] + fields_a + seq![head_b] + fields_b == all);
    lemma_field_lines_keep_materials(upto_b, fields_b, dir);
    lemma_prefix_reads(sec_a, seq![head_b], dir);
    lemma_field_lines_keep_materials(one, fields_a, dir);
    assert(one.drop_last() == Seq::<Seq<char>>::empty());
    assert(one.last() == head_a);
    let st0 = library_start();
    assert(library_run(Seq::<Seq<char>>::empty(), dir) == Ok::<LibraryState, ErrorView>(st0));
    lemma_newmtl_emits_previous(st0, tokens(head_a), dir);
    assert(library_run(one, dir) == library_line(st0, tokens(head_a), dir));
    let st1 = library_run(one, dir)->Ok_0;
    assert(st1.done.len() == 0 && st1.named && st1.current.name == tokens(head_a)[1]);
    let st_a = library_run(sec_a, dir)->Ok_0;
    assert(upto_b.drop_last() == sec_a);
    assert(upto_b.last() == head_b);
    lemma_newmtl_emits_previous(st_a, tokens(head_b), dir);
    assert(library_run(upto_b, dir) == library_line(st_a, tokens(head_b), dir));
    let st_b = library_run(upto_b, dir)->Ok_0;
    assert(st_b.done == seq![finished(st_a.current, dir)]);
    assert(st_b.named && st_b.current.name == tokens(head_b)[1]);
    let st_end = library_run(all, dir)->Ok_0;
    assert(st_end.done == st_b.done && st_end.named);
    let ms = library_finish(st_end, dir);
    assert(ms == seq![finished(st_a.current, dir), finished(st_end.current, dir)]);
}

} // verus!
