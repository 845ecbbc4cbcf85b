//! The descriptor of a picture: the JSON-LD document that tells a client the
//! size of the picture and what the service can do with it.

use vstd::prelude::*;
use crate::config::Config;
use crate::iiif::img_info::ImgView;
use crate::text::{append_decimal, decimal_text, push_char};
use crate::wif_error::WifError;

verus! {

/// The content type of a descriptor.
pub const DESCRIPTOR_TYPE: &'static str = "application/ld+json";

/// What a descriptor says of a picture.
#[derive(Debug)]
pub struct IIIFInfo {
    pub id: String,
    pub protocol: String,
    pub profile: String,
    pub width: u32,
    pub height: u32,
    pub max_area: u64,
    pub preferred_formats: Vec<String>,
    pub extra_features: Vec<String>,
    pub extra_qualities: Vec<String>,
}

/// The formats that the service prefers to answer in.
pub open spec fn preferred_formats() -> Seq<Seq<char>> {
    seq!["tga"@, "png"@, "jpeg"@, "ico"@, "bmp"@]
}

/// The features beyond the profile that the service offers.
pub open spec fn extra_features() -> Seq<Seq<char>> {
    seq![
        "baseUriRedirect"@,
        "rotationBy90s"@,
        "cors"@,
        "mirroring"@,
        "regionByPct"@,
        "regionByPx"@,
        "regionSquare"@,
        "sizeByH"@,
        "sizeByPct"@,
        "sizeByW"@,
        "sizeUpscaling"@,
    ]
}

/// The qualities beyond the profile that the service offers.
pub open spec fn extra_qualities() -> Seq<Seq<char>> {
    seq!["default"@, "bitonal"@, "gray"@]
}

/// The first `n` of `names`, each between quotes, with a comma and a blank
/// between two.
pub open spec fn quoted_names(names: Seq<Seq<char>>, n: nat) -> Seq<char>
    decreases n,
{
    if n == 0 {
        Seq::<char>::empty()
    } else if n == 1 {
        seq!['"'] + names[0] + seq!['"']
    } else {
        quoted_names(names, (n - 1) as nat) + ", "@ + seq!['"'] + names[n - 1] + seq!['"']
    }
}

/// A list of names as it is written in a descriptor: between brackets, each
/// name between quotes.
pub open spec fn name_list(names: Seq<Seq<char>>) -> Seq<char> {
    seq!['['] + quoted_names(names, names.len()) + seq![']']
}

/// The identifier under which a picture is addressed.
pub open spec fn service_id(base_address: Seq<char>, identifier: Seq<char>) -> Seq<char> {
    base_address + "/iiif/"@ + identifier
}

/// The members of a descriptor after its context.
pub open spec fn members_text(
    id: Seq<char>,
    protocol: Seq<char>,
    profile: Seq<char>,
    width: u32,
    height: u32,
    max_area: u64,
    formats: Seq<Seq<char>>,
    features: Seq<Seq<char>>,
    qualities: Seq<Seq<char>>,
) -> Seq<char> {
    "\"id\":\""@ + id + "\",\"type\":\"ImageService3\",\"protocol\":\""@ + protocol
        + "\",\"profile\":\""@ + profile + "\",\"width\":"@ + decimal_text(width as nat)
        + ",\"height\":"@ + decimal_text(height as nat) + ",\"maxArea\":"@ + decimal_text(
        max_area as nat,
    ) + ",\"preferredFormats\":"@ + name_list(formats) + ",\"extraFeatures\":"@ + name_list(
        features,
    ) + ",\"extraQualities\":"@ + name_list(qualities)
}

/// The descriptor of the picture `identifier` of the given size, as the
/// service under `base_address` sends it.
pub open spec fn descriptor_text(
    base_address: Seq<char>,
    identifier: Seq<char>,
    width: u32,
    height: u32,
    max_area: u64,
) -> Seq<char> {
    "{\"@context\":\"http://iiif.io/api/image/3/context.json\","@ + members_text(
        service_id(base_address, identifier),
        "http://iiif.io/api/image"@,
        "level1"@,
        width,
        height,
        max_area,
        preferred_formats(),
        extra_features(),
        extra_qualities(),
    ) + "}"@
}

/// The texts that a vector of strings holds.
pub open spec fn names_of(v: Seq<String>) -> Seq<Seq<char>> {
    Seq::new(v.len(), |i: int| v[i]@)
}

/// Appends a list of names to `out`.
pub fn append_names(out: &mut String, names: &Vec<String>)
    ensures
        final(out)@ == old(out)@ + name_list(names_of(names@)),
{
    push_char(out, '[');
    let ghost start = out@;
    let mut i: usize = 0;
    while i < names.len()
        invariant
            i <= names.len(),
            start == old(out)@ + seq!['['],
            out@ == start + quoted_names(names_of(names@), i as nat),
        decreases names.len() - i,
    {
        let ghost before = out@;
        let ghost list = names_of(names@);
        if i > 0 {
            out.append(", ");
        }
        push_char(out, '"');
        out.append(names[i].as_str());
        push_char(out, '"');
        proof {
            assert(list[i as int] == names@[i as int]@);
            if i == 0 {
                assert(quoted_names(list, 0) =~= Seq::<char>::empty());
                assert(out@ =~= start + (seq!['"'] + list[0] + seq!['"']));
            } else {
                assert(out@ =~= start + (quoted_names(list, i as nat) + ", "@ + seq!['"']
                    + list[i as int] + seq!['"']));
            }
        }
        i += 1;
    }
    push_char(out, ']');
    proof {
        let list = names_of(names@);
        assert(out@ =~= old(out)@ + (seq!['['] + quoted_names(list, list.len()) + seq![']']));
    }
}

/// The strings for a list of names.
fn names(a: &'static str, rest: Vec<&'static str>) -> (v: Vec<String>)
    ensures
        v.len() == rest.len() + 1,
        v@[0]@ == a@,
        forall|i: int| 1 <= i <= rest.len() ==> (#[trigger] v@[i])@ == rest@[i - 1]@,
{
    let mut v: Vec<String> = Vec::new();
    v.push(a.to_owned());
    let mut i: usize = 0;
    while i < rest.len()
        invariant
            i <= rest.len(),
            v.len() == i + 1,
            v@[0]@ == a@,
            forall|k: int| 1 <= k <= i ==> (#[trigger] v@[k])@ == rest@[k - 1]@,
        decreases rest.len() - i,
    {
        v.push(rest[i].to_owned());
        i += 1;
    }
    v
}

impl IIIFInfo {
    /// Whether the descriptor is the one of the picture `identifier` of the
    /// given size, as the service under `base_address` describes it.
    pub open spec fn describes(
        self,
        base_address: Seq<char>,
        identifier: Seq<char>,
        width: u32,
        height: u32,
        max_area: u64,
    ) -> bool {
        &&& self.id@ == service_id(base_address, identifier)
        &&& self.protocol@ == "http://iiif.io/api/image"@
        &&& self.profile@ == "level1"@
        &&& self.width == width
        &&& self.height == height
        &&& self.max_area == max_area
        &&& names_of(self.preferred_formats@) == preferred_formats()
        &&& names_of(self.extra_features@) == extra_features()
        &&& names_of(self.extra_qualities@) == extra_qualities()
    }

    /// What the descriptor of a picture says.
    pub fn describe(img: &ImgView, config: &Config) -> (info: IIIFInfo)
        ensures
            info.describes(
                config.base_address@,
                img.identifier@,
                img.dimensions.width,
                img.dimensions.height,
                config.max_area,
            ),
    {
        let mut id = config.base_address();
        id.append("/iiif/");
        id.append(img.identifier.as_str());
        let info = IIIFInfo {
            id,
            protocol: "http://iiif.io/api/image".to_owned(),
            profile: "level1".to_owned(),
            width: img.dimensions.width,
            height: img.dimensions.height,
            max_area: config.max_area(),
            preferred_formats: names("tga", vec!["png", "jpeg", "ico", "bmp"]),
            extra_features: names(
                "baseUriRedirect",
                vec![
                    "rotationBy90s",
                    "cors",
                    "mirroring",
                    "regionByPct",
                    "regionByPx",
                    "regionSquare",
                    "sizeByH",
                    "sizeByPct",
                    "sizeByW",
                    "sizeUpscaling",
                ],
            ),
            extra_qualities: names("default", vec!["bitonal", "gray"]),
        };
        proof {
            assert(names_of(info.preferred_formats@) =~= preferred_formats());
            assert(names_of(info.extra_features@) =~= extra_features());
            assert(names_of(info.extra_qualities@) =~= extra_qualities());
        }
        info
    }

    /// The descriptor of a picture as the JSON-LD document that is sent.
    pub fn for_img(img: &ImgView, config: &Config) -> (r: Result<String, WifError>)
        ensures
            r is Ok,
            r->Ok_0@ == descriptor_text(
                config.base_address@,
                img.identifier@,
                img.dimensions.width,
                img.dimensions.height,
                config.max_area,
            ),
    {
        let info = IIIFInfo::describe(img, config);
        let mut out = "{\"@context\":\"http://iiif.io/api/image/3/context.json\",".to_owned();
        let members = info.jsonify();
        out.append(members.as_str());
        out.append("}");
        Ok(out)
    }

    /// The members of the descriptor after its context.
    pub fn jsonify(&self) -> (r: String)
        ensures
            r@ == members_text(
                self.id@,
                self.protocol@,
                self.profile@,
                self.width,
                self.height,
                self.max_area,
                names_of(self.preferred_formats@),
                names_of(self.extra_features@),
                names_of(self.extra_qualities@),
            ),
    {
        let mut s = "\"id\":\"".to_owned();
        s.append(self.id.as_str());
        s.append("\",\"type\":\"ImageService3\",\"protocol\":\"");
        s.append(self.protocol.as_str());
        s.append("\",\"profile\":\"");
        s.append(self.profile.as_str());
        s.append("\",\"width\":");
        append_decimal(&mut s, self.width as u64);
        s.append(",\"height\":");
        append_decimal(&mut s, self.height as u64);
        s.append(",\"maxArea\":");
        append_decimal(&mut s, self.max_area);
        s.append(",\"preferredFormats\":");
        append_names(&mut s, &self.preferred_formats);
        s.append(",\"extraFeatures\":");
        append_names(&mut s, &self.extra_features);
        s.append(",\"extraQualities\":");
        append_names(&mut s, &self.extra_qualities);
        s
    }
}

} // verus!
