//! Choosing a font face from a font database by family name and face code, with a
//! sans-serif face to fall back on.

use crate::style::{translate_font_face, FontSlant, FontWeight};
use vstd::prelude::*;

verus! {

/// The font database of the `fontdb` crate.
#[verifier::external_type_specification]
#[verifier::external_body]
pub struct ExDatabase(fontdb::Database);

/// The number by which a font database knows a face.
#[verifier::external_type_specification]
#[verifier::external_body]
pub struct ExFaceId(fontdb::ID);

/// The family names of the faces that a font database holds.
pub uninterp spec fn families_of(db: fontdb::Database) -> Set<Seq<char>>;

/// The family name that a font database takes for the generic sans-serif family.
pub uninterp spec fn sans_serif_of(db: fontdb::Database) -> Seq<char>;

/// The family name of the face that a font database knows by a number; `None` where it
/// knows no face by it.
pub uninterp spec fn face_family_of(db: fontdb::Database, id: fontdb::ID) -> Option<Seq<char>>;

/// Calls `fontdb::Database::query` for a family, the generic sans-serif family where none
/// is named, in the given weight and slant and of normal width. The contract claims that a
/// face comes back exactly where the database holds a face of the family asked for, and
/// that it is a face of that family: the query takes the faces of the family and narrows
/// them by width, slant and weight, each time to a value that one of the faces left has.
/// Which of the family's faces comes back is left open.
#[verifier::external_body]
fn database_query(
    db: &fontdb::Database,
    family: Option<&str>,
    weight: FontWeight,
    slant: FontSlant,
) -> (r: Option<fontdb::ID>)
    ensures
        r is Some <==> families_of(*db).contains(
            match family {
                Some(name) => name@,
                None => sans_serif_of(*db),
            },
        ),
        r matches Some(id) ==> face_family_of(*db, id) == Some(
            match family {
                Some(name) => name@,
                None => sans_serif_of(*db),
            },
        ),
{
    let family = match family {
        Some(name) => fontdb::Family::Name(name),
        None => fontdb::Family::SansSerif,
    };
    let weight = match weight {
        FontWeight::Normal => fontdb::Weight::NORMAL,
        FontWeight::Bold => fontdb::Weight::BOLD,
    };
    let style = match slant {
        FontSlant::Normal => fontdb::Style::Normal,
        FontSlant::Italic => fontdb::Style::Italic,
    };
    let stretch = fontdb::Stretch::Normal;
    db.query(&fontdb::Query { families: &[family], weight, stretch, style })
}

/// The face to draw with: the one found for the family asked for, else the fallback.
pub fn pick_font(found: Option<fontdb::ID>, fallback: Option<fontdb::ID>) -> (id: Option<
    fontdb::ID,
>)
    ensures
        id == (if found is Some {
            found
        } else {
            fallback
        }),
{
    match found {
        Some(id) => Some(id),
        None => fallback,
    }
}

/// A font database together with the face that stands in for families it does not have.
pub struct FontDBWrapper {
    db: fontdb::Database,
    fallback_glyph_id: Option<fontdb::ID>,
}

impl FontDBWrapper {
    /// The database that faces are looked up in.
    pub closed spec fn loaded(&self) -> fontdb::Database {
        self.db
    }

    /// The face used where a family is not found.
    pub closed spec fn fallback(&self) -> Option<fontdb::ID> {
        self.fallback_glyph_id
    }

    /// Takes a database with its fonts loaded and looks up the fallback: the plain face of
    /// the generic sans-serif family. There is a fallback exactly where the database holds
    /// a face of that family, and it is a face of that family.
    pub fn new(db: fontdb::Database) -> (fonts: Self)
        ensures
            fonts.loaded() == db,
            fonts.fallback() is Some <==> families_of(db).contains(sans_serif_of(db)),
            fonts.fallback() matches Some(id) ==> face_family_of(db, id) == Some(
                sans_serif_of(db),
            ),
    {
        let fallback_glyph_id = database_query(&db, None, FontWeight::Normal, FontSlant::Normal);
        FontDBWrapper { db, fallback_glyph_id }
    }

    /// The database that faces are looked up in, to read a face's data from.
    pub fn database(&self) -> (db: &fontdb::Database)
        ensures
            *db == self.loaded(),
    {
        &self.db
    }

    pub fn fallback_id(&self) -> (id: Option<fontdb::ID>)
        ensures
            id == self.fallback(),
    {
        self.fallback_glyph_id
    }

    /// The face for a family and a host face code: plain, bold, italic or bold italic, plain
    /// for any other code. Where the database holds a face of the family, a face of that
    /// family is returned; where it holds none, the fallback is returned; so there is no
    /// face only where there is no fallback either.
    pub fn query(&self, fontfamily: &str, fontface: i32) -> (id: Option<fontdb::ID>)
        ensures
            families_of(self.loaded()).contains(fontfamily@) ==> (id matches Some(face)
                && face_family_of(self.loaded(), face) == Some(fontfamily@)),
            !families_of(self.loaded()).contains(fontfamily@) ==> id == self.fallback(),
            id is None ==> self.fallback() is None,
    {
        let (weight, slant) = translate_font_face(fontface);
        let found = database_query(&self.db, Some(fontfamily), weight, slant);
        pick_font(found, self.fallback_glyph_id)
    }
}

} // verus!
