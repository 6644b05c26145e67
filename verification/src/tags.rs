//! The tagged fields of a metadata container, as plain values.

use vstd::prelude::*;
use vstd::string::*;
use crate::models::Rational;

verus! {

/// The fields that the extraction reads, each named as the Exif standard
/// names it.
#[derive(Debug, Clone, Copy, PartialEq, Eq, Structural)]
pub enum Tag {
    GpsLatitudeRef,
    GpsLatitude,
    GpsLongitudeRef,
    GpsLongitude,
    ImageWidth,
    ImageLength,
    Make,
    Model,
    DateTime,
    ExposureTime,
    FNumber,
    PhotographicSensitivity,
    DateTimeOriginal,
    FocalLength,
    PixelXDimension,
    PixelYDimension,
}

/// How many tags there are.
pub const TAG_COUNT: usize = 16;

impl Tag {
    /// The tag's place in the list of all tags.
    pub open spec fn spec_index(self) -> int {
        match self {
            Tag::GpsLatitudeRef => 0,
            Tag::GpsLatitude => 1,
            Tag::GpsLongitudeRef => 2,
            Tag::GpsLongitude => 3,
            Tag::ImageWidth => 4,
            Tag::ImageLength => 5,
            Tag::Make => 6,
            Tag::Model => 7,
            Tag::DateTime => 8,
            Tag::ExposureTime => 9,
            Tag::FNumber => 10,
            Tag::PhotographicSensitivity => 11,
            Tag::DateTimeOriginal => 12,
            Tag::FocalLength => 13,
            Tag::PixelXDimension => 14,
            Tag::PixelYDimension => 15,
        }
    }

    /// The tag's place in the list of all tags: below [`TAG_COUNT`], and
    /// different for different tags.
    pub fn index(self) -> (i: usize)
        ensures
            i == self.spec_index(),
            i < TAG_COUNT,
    {
        match self {
            Tag::GpsLatitudeRef => 0,
            Tag::GpsLatitude => 1,
            Tag::GpsLongitudeRef => 2,
            Tag::GpsLongitude => 3,
            Tag::ImageWidth => 4,
            Tag::ImageLength => 5,
            Tag::Make => 6,
            Tag::Model => 7,
            Tag::DateTime => 8,
            Tag::ExposureTime => 9,
            Tag::FNumber => 10,
            Tag::PhotographicSensitivity => 11,
            Tag::DateTimeOriginal => 12,
            Tag::FocalLength => 13,
            Tag::PixelXDimension => 14,
            Tag::PixelYDimension => 15,
        }
    }

    /// The tag at a place in the list of all tags.
    pub open spec fn spec_at(i: int) -> Tag {
        if i == 0 {
            Tag::GpsLatitudeRef
        } else if i == 1 {
            Tag::GpsLatitude
        } else if i == 2 {
            Tag::GpsLongitudeRef
        } else if i == 3 {
            Tag::GpsLongitude
        } else if i == 4 {
            Tag::ImageWidth
        } else if i == 5 {
            Tag::ImageLength
        } else if i == 6 {
            Tag::Make
        } else if i == 7 {
            Tag::Model
        } else if i == 8 {
            Tag::DateTime
        } else if i == 9 {
            Tag::ExposureTime
        } else if i == 10 {
            Tag::FNumber
        } else if i == 11 {
            Tag::PhotographicSensitivity
        } else if i == 12 {
            Tag::DateTimeOriginal
        } else if i == 13 {
            Tag::FocalLength
        } else if i == 14 {
            Tag::PixelXDimension
        } else {
            Tag::PixelYDimension
        }
    }

    /// The tag at a place in the list of all tags.
    pub fn at(i: usize) -> (tag: Tag)
        requires
            i < TAG_COUNT,
        ensures
            tag == Tag::spec_at(i as int),
            tag.spec_index() == i,
    {
        if i == 0 {
            Tag::GpsLatitudeRef
        } else if i == 1 {
            Tag::GpsLatitude
        } else if i == 2 {
            Tag::GpsLongitudeRef
        } else if i == 3 {
            Tag::GpsLongitude
        } else if i == 4 {
            Tag::ImageWidth
        } else if i == 5 {
            Tag::ImageLength
        } else if i == 6 {
            Tag::Make
        } else if i == 7 {
            Tag::Model
        } else if i == 8 {
            Tag::DateTime
        } else if i == 9 {
            Tag::ExposureTime
        } else if i == 10 {
            Tag::FNumber
        } else if i == 11 {
            Tag::PhotographicSensitivity
        } else if i == 12 {
            Tag::DateTimeOriginal
        } else if i == 13 {
            Tag::FocalLength
        } else if i == 14 {
            Tag::PixelXDimension
        } else {
            Tag::PixelYDimension
        }
    }
}

/// What a field holds, as far as the extraction reads it.
#[derive(Debug, Clone)]
pub enum FieldValue {
    /// The first of the field's unsigned integers.
    Unsigned(u32),
    /// The field's unsigned fractions, all of them.
    Rationals(Vec<Rational>),
    /// Anything else.
    Other,
}

/// The mathematical value of a [`FieldValue`].
pub enum FieldValueView {
    Unsigned(u32),
    Rationals(Seq<Rational>),
    Other,
}

impl View for FieldValue {
    type V = FieldValueView;

    open spec fn view(&self) -> FieldValueView {
        match self {
            FieldValue::Unsigned(n) => FieldValueView::Unsigned(*n),
            FieldValue::Rationals(v) => FieldValueView::Rationals(v@),
            FieldValue::Other => FieldValueView::Other,
        }
    }
}

/// One field of a container: its value, and the value as text.
#[derive(Debug, Clone)]
pub struct TagField {
    /// The value by its type.
    pub value: FieldValue,
    /// The value as the container's reader prints it.
    pub text: String,
}

/// The mathematical value of a [`TagField`].
pub struct TagFieldView {
    pub value: FieldValueView,
    pub text: Seq<char>,
}

impl View for TagField {
    type V = TagFieldView;

    open spec fn view(&self) -> TagFieldView {
        TagFieldView { value: self.value@, text: self.text@ }
    }
}

impl TagFieldView {
    /// The field as an unsigned integer, where it is one.
    pub open spec fn unsigned(self) -> Option<u32> {
        match self.value {
            FieldValueView::Unsigned(n) => Some(n),
            _ => None,
        }
    }

    /// The first of the field's fractions, where it has one.
    pub open spec fn first_rational(self) -> Option<Rational> {
        match self.value {
            FieldValueView::Rationals(v) if v.len() > 0 => Some(v[0]),
            _ => None,
        }
    }
}

impl TagField {
    /// The field as an unsigned integer, where it is one.
    pub fn unsigned(&self) -> (n: Option<u32>)
        ensures
            n == self@.unsigned(),
    {
        match &self.value {
            FieldValue::Unsigned(n) => Some(*n),
            _ => None,
        }
    }

    /// The first of the field's fractions, where it has one.
    pub fn first_rational(&self) -> (r: Option<Rational>)
        ensures
            r == self@.first_rational(),
    {
        match &self.value {
            FieldValue::Rationals(v) => if v.len() > 0 {
                Some(v[0])
            } else {
                None
            },
            _ => None,
        }
    }
}

/// The fields of a container's primary image, by tag.
pub type Fields = Map<Tag, TagFieldView>;

/// The first of `candidates` that `fields` holds.
pub open spec fn first_present(fields: Fields, candidates: Seq<Tag>) -> Option<TagFieldView>
    decreases candidates.len(),
{
    if candidates.len() == 0 {
        None
    } else if fields.contains_key(candidates[0]) {
        Some(fields[candidates[0]])
    } else {
        first_present(fields, candidates.drop_first())
    }
}

/// The fields of one container, each under its tag, at most one per tag.
#[derive(Debug, Clone)]
pub struct TagStore {
    slots: [Option<TagField>; TAG_COUNT],
}

impl View for TagStore {
    type V = Fields;

    closed spec fn view(&self) -> Fields {
        Map::new(
            |tag: Tag| tag.spec_index() < self.slots@.len() && self.slots@[tag.spec_index()] is Some,
            |tag: Tag| self.slots@[tag.spec_index()]->0@,
        )
    }
}

impl TagStore {
    /// A store without fields.
    pub fn new() -> (store: TagStore)
        ensures
            store@ == Map::<Tag, TagFieldView>::empty(),
    {
        let store = TagStore {
            slots: [
                None,
                None,
                None,
                None,
                None,
                None,
                None,
                None,
                None,
                None,
                None,
                None,
                None,
                None,
                None,
                None,
            ],
        };
        store
    }

    /// Puts `field` under `tag`, in place of what was there.
    pub fn insert(&mut self, tag: Tag, field: TagField)
        ensures
            final(self)@ == old(self)@.insert(tag, field@),
    {
        let i = tag.index();
        self.slots[i] = Some(field);
    }

    /// Takes away what is under `tag`.
    pub fn remove(&mut self, tag: Tag)
        ensures
            final(self)@ == old(self)@.remove(tag),
    {
        let i = tag.index();
        self.slots[i] = None;
    }

    /// The field under `tag`.
    pub fn get(&self, tag: Tag) -> (field: Option<&TagField>)
        ensures
            field matches Some(f) ==> self@.contains_key(tag) && self@[tag] == f@,
            field is None ==> !self@.contains_key(tag),
    {
        self.slots[tag.index()].as_ref()
    }

    /// The field under the first of `candidates` that the store holds.
    pub fn first_present(&self, candidates: &[Tag]) -> (field: Option<&TagField>)
        ensures
            field matches Some(f) ==> first_present(self@, candidates@) == Some(f@),
            field is None ==> first_present(self@, candidates@) is None,
    {
        let mut i: usize = 0;
        assert(candidates@.skip(0) == candidates@);
        while i < candidates.len()
            invariant
                i <= candidates@.len(),
                first_present(self@, candidates@) == first_present(self@, candidates@.skip(i as int)),
            decreases candidates@.len() - i,
        {
            let found = self.get(candidates[i]);
            assert(candidates@.skip(i as int).drop_first() == candidates@.skip(i + 1));
            if found.is_some() {
                return found;
            }
            i = i + 1;
        }
        None
    }
}

} // verus!
