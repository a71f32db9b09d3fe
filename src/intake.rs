use vstd::prelude::*;
use vstd::string::*;

use crate::assets::AssetMap;
use crate::auth::starts_with;
use crate::convert::{convert_root, root_entries};
use crate::error::GatewayError;
use crate::json::Json;
use crate::value::{entries_model, TypedValue};

verus! {

/// What `String::from_utf8_lossy` makes of `b`.
pub uninterp spec fn lossy_utf8(b: Seq<u8>) -> Seq<char>;

/// Relies on `String::from_utf8_lossy`: the text depends on the bytes alone.
#[verifier::external_body]
fn decode_lossy(b: &[u8]) -> (r: String)
    ensures
        r@ == lossy_utf8(b@),
{
    String::from_utf8_lossy(b).into_owned()
}

/// The role of one part of a multipart request.
#[derive(Clone, Copy, Debug, PartialEq, Eq, Structural)]
pub enum PartRole {
    /// The template source.
    Template,
    /// The JSON data.
    Data,
    /// An image, kept as an asset under the part's name.
    Image,
    /// A font file, appended to the font list.
    Font,
    /// Anything else; dropped.
    Ignored,
}

pub open spec fn has_suffix(s: Seq<char>, p: Seq<char>) -> bool {
    p.len() <= s.len() && s.subrange(s.len() - p.len(), s.len() as int) == p
}

/// The image media types that make a part an asset.
pub open spec fn is_image_type(content_type: Seq<char>) -> bool {
    content_type == "image/png"@ || content_type == "image/jpeg"@ || content_type == "image/gif"@
        || content_type == "image/svg+xml"@
}

/// The file extensions that make a part a font.
pub open spec fn is_font_file(file_name: Seq<char>) -> bool {
    has_suffix(file_name, ".otf"@) || has_suffix(file_name, ".ttf"@)
}

/// The role of a part: by name first, then by media type, then by file name.
pub open spec fn role_of(name: Seq<char>, file_name: Seq<char>, content_type: Seq<char>) -> PartRole {
    if name == "template"@ {
        PartRole::Template
    } else if name == "data"@ {
        PartRole::Data
    } else if is_image_type(content_type) {
        PartRole::Image
    } else if is_font_file(file_name) {
        PartRole::Font
    } else {
        PartRole::Ignored
    }
}

/// Whether `a` and `b` hold the same characters.
pub fn same_text(a: &str, b: &str) -> (r: bool)
    ensures
        r == (a@ == b@),
{
    if a.unicode_len() != b.unicode_len() {
        return false;
    }
    assert(a@ =~= a@.subrange(0, b@.len() as int));
    starts_with(a, b)
}

/// Whether `s` ends with `p`.
pub fn ends_with(s: &str, p: &str) -> (r: bool)
    ensures
        r == has_suffix(s@, p@),
{
    let n = p.unicode_len();
    let m = s.unicode_len();
    if n > m {
        return false;
    }
    let mut i: usize = 0;
    while i < n
        invariant
            n == p@.len(),
            m == s@.len(),
            n <= m,
            i <= n,
            forall|k: int| 0 <= k < i ==> s@[m - n + k] == p@[k],
        decreases n - i,
    {
        if s.get_char(m - n + i) != p.get_char(i) {
            return false;
        }
        i = i + 1;
    }
    assert(s@.subrange(m - n, m as int) =~= p@);
    true
}

/// Whether a declared media type is one of the recognised image types.
pub fn is_image(content_type: &str) -> (r: bool)
    ensures
        r == is_image_type(content_type@),
{
    same_text(content_type, "image/png") || same_text(content_type, "image/jpeg") || same_text(
        content_type,
        "image/gif",
    ) || same_text(content_type, "image/svg+xml")
}

/// Whether a declared file name has a recognised font extension.
pub fn is_font(file_name: &str) -> (r: bool)
    ensures
        r == is_font_file(file_name@),
{
    ends_with(file_name, ".otf") || ends_with(file_name, ".ttf")
}

/// Decides the role of a part from its name, declared file name (empty if
/// none) and declared content type (empty if none).
pub fn part_role(name: &str, file_name: &str, content_type: &str) -> (r: PartRole)
    ensures
        r == role_of(name@, file_name@, content_type@),
{
    if same_text(name, "template") {
        PartRole::Template
    } else if same_text(name, "data") {
        PartRole::Data
    } else if is_image(content_type) {
        PartRole::Image
    } else if is_font(file_name) {
        PartRole::Font
    } else {
        PartRole::Ignored
    }
}

/// The parts of one request gathered so far. A later `template` or `data` part
/// replaces an earlier one, and a later image under a name replaces an earlier
/// image under that name.
pub struct Intake {
    template: Option<String>,
    data: Option<Json>,
    assets: AssetMap,
    fonts: Vec<Vec<u8>>,
}

/// A request whose parts were all classified, with both required parts present.
pub struct Classified {
    pub template: String,
    pub data: Json,
    pub assets: AssetMap,
    pub fonts: Vec<Vec<u8>>,
}

/// What the engine is handed for one request.
pub struct EngineInput {
    pub template: String,
    /// The entries of the root mapping of values.
    pub inputs: Vec<(String, TypedValue)>,
    pub fonts: Vec<Vec<u8>>,
}

pub open spec fn fonts_model(fonts: Seq<Vec<u8>>) -> Seq<Seq<u8>> {
    fonts.map_values(|f: Vec<u8>| f@)
}

impl Intake {
    pub closed spec fn template_text(&self) -> Option<Seq<char>> {
        match self.template {
            Some(t) => Some(t@),
            None => None,
        }
    }

    pub closed spec fn data_value(&self) -> Option<Json> {
        self.data
    }

    pub closed spec fn asset_map(&self) -> Map<Seq<char>, Seq<u8>> {
        self.assets.view()
    }

    pub closed spec fn font_list(&self) -> Seq<Seq<u8>> {
        fonts_model(self.fonts@)
    }

    /// An intake with no parts.
    pub fn new() -> (r: Intake)
        ensures
            r.template_text() is None,
            r.data_value() is None,
            r.asset_map() == Map::<Seq<char>, Seq<u8>>::empty(),
            r.font_list() == Seq::<Seq<u8>>::empty(),
    {
        let r = Intake { template: None, data: None, assets: AssetMap::new(), fonts: Vec::new() };
        assert(r.font_list() =~= Seq::<Seq<u8>>::empty());
        r
    }

    /// Takes a `template` part, decoding its bytes as UTF-8 with invalid
    /// sequences replaced.
    pub fn add_template(&mut self, body: &[u8])
        ensures
            final(self).template_text() == Some(lossy_utf8(body@)),
            final(self).data_value() == old(self).data_value(),
            final(self).asset_map() == old(self).asset_map(),
            final(self).font_list() == old(self).font_list(),
    {
        self.template = Some(decode_lossy(body));
    }

    /// Takes the outcome of parsing a `data` part: a parse failure, carrying the
    /// parser's diagnostic, ends the request.
    pub fn add_data(&mut self, parsed: Result<Json, String>) -> (r: Result<(), GatewayError>)
        ensures
            match parsed {
                Ok(j) => r is Ok && final(self).data_value() == Some(j),
                Err(d) => (r matches Err(GatewayError::InvalidJson(m)) && m@ == d@)
                    && final(self).data_value() == old(self).data_value(),
            },
            final(self).template_text() == old(self).template_text(),
            final(self).asset_map() == old(self).asset_map(),
            final(self).font_list() == old(self).font_list(),
    {
        match parsed {
            Ok(j) => {
                self.data = Some(j);
                Ok(())
            },
            Err(d) => Err(GatewayError::InvalidJson(d)),
        }
    }

    /// Takes an image part, stored under the part's name.
    pub fn add_image(&mut self, name: String, body: Vec<u8>)
        ensures
            final(self).asset_map() == old(self).asset_map().insert(name@, body@),
            final(self).template_text() == old(self).template_text(),
            final(self).data_value() == old(self).data_value(),
            final(self).font_list() == old(self).font_list(),
    {
        self.assets.insert(name, body);
    }

    /// Takes a font part, appended to the font list.
    pub fn add_font(&mut self, body: Vec<u8>)
        ensures
            final(self).font_list() == old(self).font_list().push(body@),
            final(self).template_text() == old(self).template_text(),
            final(self).data_value() == old(self).data_value(),
            final(self).asset_map() == old(self).asset_map(),
    {
        self.fonts.push(body);
        assert(self.font_list() =~= old(self).font_list().push(body@));
    }

    /// Ends classification: the template is checked first, then the data.
    pub fn finish(self) -> (r: Result<Classified, GatewayError>)
        ensures
            self.template_text() is None ==> r matches Err(GatewayError::MissingTemplate),
            self.template_text() is Some && self.data_value() is None ==> r matches Err(
                GatewayError::MissingData,
            ),
            self.template_text() is Some && self.data_value() is Some ==> (r matches Ok(c) && Some(
                c.template@,
            ) == self.template_text() && Some(c.data) == self.data_value() && c.assets.view()
                == self.asset_map() && fonts_model(c.fonts@) == self.font_list()),
    {
        let template = match self.template {
            Some(t) => t,
            None => return Err(GatewayError::MissingTemplate),
        };
        let data = match self.data {
            Some(d) => d,
            None => return Err(GatewayError::MissingData),
        };
        Ok(Classified { template, data, assets: self.assets, fonts: self.fonts })
    }
}

impl Classified {
    /// Builds what the engine is handed: the data converted with the request's
    /// assets substituted, wrapped under `data` unless it is an object.
    pub fn into_engine_input(self) -> (r: EngineInput)
        ensures
            r.template@ == self.template@,
            entries_model(r.inputs@, r.inputs@.len()) == root_entries(self.data, self.assets.view()),
            fonts_model(r.fonts@) == fonts_model(self.fonts@),
    {
        let inputs = match convert_root(self.data, &self.assets) {
            TypedValue::Dict(entries) => entries,
            _ => {
                proof {
                    assert(false);
                }
                Vec::new()
            },
        };
        EngineInput { template: self.template, inputs, fonts: self.fonts }
    }
}

} // verus!
