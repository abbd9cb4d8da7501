//! Attribute identifiers, and the ones this library looks for.

use vstd::prelude::*;

verus! {

/// An attribute identifier: the group and element numbers that name one field
/// of a record.
#[derive(Clone, Copy, Debug, PartialEq, Eq, Structural)]
pub struct Tag {
    pub group: u16,
    pub element: u16,
}

impl Tag {
    /// Whether `self` comes before `other` in the order of attribute
    /// identifiers: by group first, then by element.
    pub open spec fn below(self, other: Tag) -> bool {
        self.group < other.group || (self.group == other.group && self.element < other.element)
    }

    /// Modality (0008,0060).
    #[verifier::allow_in_spec]
    pub fn modality() -> Tag
        returns
            (Tag { group: 0x0008, element: 0x0060 }),
    {
        Tag { group: 0x0008, element: 0x0060 }
    }

    /// Modalities in Study (0008,0061), the attribute that follows Modality.
    #[verifier::allow_in_spec]
    pub fn modalities_in_study() -> Tag
        returns
            (Tag { group: 0x0008, element: 0x0061 }),
    {
        Tag { group: 0x0008, element: 0x0061 }
    }

    /// Series Instance UID (0020,000E).
    #[verifier::allow_in_spec]
    pub fn series_instance_uid() -> Tag
        returns
            (Tag { group: 0x0020, element: 0x000E }),
    {
        Tag { group: 0x0020, element: 0x000E }
    }

    /// Referenced Frame of Reference Sequence (3006,0010).
    #[verifier::allow_in_spec]
    pub fn referenced_frame_of_reference_sequence() -> Tag
        returns
            (Tag { group: 0x3006, element: 0x0010 }),
    {
        Tag { group: 0x3006, element: 0x0010 }
    }

    /// RT Referenced Study Sequence (3006,0012).
    #[verifier::allow_in_spec]
    pub fn rt_referenced_study_sequence() -> Tag
        returns
            (Tag { group: 0x3006, element: 0x0012 }),
    {
        Tag { group: 0x3006, element: 0x0012 }
    }

    /// RT Referenced Series Sequence (3006,0014).
    #[verifier::allow_in_spec]
    pub fn rt_referenced_series_sequence() -> Tag
        returns
            (Tag { group: 0x3006, element: 0x0014 }),
    {
        Tag { group: 0x3006, element: 0x0014 }
    }

    /// Pixel Data (7FE0,0010).
    #[verifier::allow_in_spec]
    pub fn pixel_data() -> Tag
        returns
            (Tag { group: 0x7FE0, element: 0x0010 }),
    {
        Tag { group: 0x7FE0, element: 0x0010 }
    }
}

/// The route from a structure set to the series it refers to: three nested
/// sequences, then the identifier of the series.
pub open spec fn ref_uid_order() -> Seq<Tag> {
    seq![
        Tag::referenced_frame_of_reference_sequence(),
        Tag::rt_referenced_study_sequence(),
        Tag::rt_referenced_series_sequence(),
        Tag::series_instance_uid(),
    ]
}

/// The four steps of `ref_uid_order`, in order.
pub fn reference_path() -> (path: [Tag; 4])
    ensures
        path@ == ref_uid_order(),
{
    [
        Tag::referenced_frame_of_reference_sequence(),
        Tag::rt_referenced_study_sequence(),
        Tag::rt_referenced_series_sequence(),
        Tag::series_instance_uid(),
    ]
}

} // verus!
