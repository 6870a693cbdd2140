//! The kinds of image that a camera can be asked for.
use vstd::prelude::*;
use crate::error::{DecodeError, DecodeErrorView};
use crate::schema::TypeTag;
use crate::wire::{Integer, Value, ValueView};

verus! {

/// How many kinds of image there are.
pub const IMAGE_TYPE_COUNT: u64 = 8;

/// The kind of image that a camera delivers.
///
/// On the wire a kind is the number of its variant, counted from zero in the
/// order of declaration.
#[derive(Clone, Copy, Debug, PartialEq, Eq, Structural)]
pub enum ImageType {
    Scene,
    DepthPlanner,
    DepthPerspective,
    DepthVis,
    DisparityNormalized,
    Segmentation,
    SurfaceNormals,
    Infrared,
}

impl ImageType {
    /// The number of the variant.
    pub open spec fn spec_discriminant(self) -> u64 {
        match self {
            ImageType::Scene => 0,
            ImageType::DepthPlanner => 1,
            ImageType::DepthPerspective => 2,
            ImageType::DepthVis => 3,
            ImageType::DisparityNormalized => 4,
            ImageType::Segmentation => 5,
            ImageType::SurfaceNormals => 6,
            ImageType::Infrared => 7,
        }
    }

    /// The variant with the given number; the first one for a number that
    /// names none.
    pub open spec fn spec_from_discriminant(n: u64) -> ImageType {
        if n == 1 {
            ImageType::DepthPlanner
        } else if n == 2 {
            ImageType::DepthPerspective
        } else if n == 3 {
            ImageType::DepthVis
        } else if n == 4 {
            ImageType::DisparityNormalized
        } else if n == 5 {
            ImageType::Segmentation
        } else if n == 6 {
            ImageType::SurfaceNormals
        } else if n == 7 {
            ImageType::Infrared
        } else {
            ImageType::Scene
        }
    }

    /// What decoding a wire value into an image kind gives.
    ///
    /// An integer decodes to the variant that it numbers, and is refused by
    /// its value when it numbers none. Anything else is a value of the wrong
    /// type; it stands in no field, so the failure carries an empty name.
    pub open spec fn spec_try_from(value: ValueView) -> Result<ImageType, DecodeErrorView> {
        match value {
            ValueView::Integer(n) => if 0 <= n < IMAGE_TYPE_COUNT {
                Ok(ImageType::spec_from_discriminant(n as u64))
            } else {
                Err(DecodeErrorView::InvalidEnumTag(n))
            },
            _ => Err(DecodeErrorView::FieldTypeMismatch(Seq::empty(), TypeTag::Enumeration)),
        }
    }

    /// The number of the variant.
    #[verifier::when_used_as_spec(spec_discriminant)]
    pub fn discriminant(self) -> (r: u64)
        ensures
            r == self.spec_discriminant(),
            r < IMAGE_TYPE_COUNT,
    {
        match self {
            ImageType::Scene => 0,
            ImageType::DepthPlanner => 1,
            ImageType::DepthPerspective => 2,
            ImageType::DepthVis => 3,
            ImageType::DisparityNormalized => 4,
            ImageType::Segmentation => 5,
            ImageType::SurfaceNormals => 6,
            ImageType::Infrared => 7,
        }
    }

    /// The variant with the given number, if the number names one.
    pub fn from_discriminant(n: u64) -> (r: Option<ImageType>)
        ensures
            r == if n < IMAGE_TYPE_COUNT {
                Some(ImageType::spec_from_discriminant(n))
            } else {
                None::<ImageType>
            },
            r matches Some(kind) ==> kind.spec_discriminant() == n,
    {
        if n == 0 {
            Some(ImageType::Scene)
        } else if n == 1 {
            Some(ImageType::DepthPlanner)
        } else if n == 2 {
            Some(ImageType::DepthPerspective)
        } else if n == 3 {
            Some(ImageType::DepthVis)
        } else if n == 4 {
            Some(ImageType::DisparityNormalized)
        } else if n == 5 {
            Some(ImageType::Segmentation)
        } else if n == 6 {
            Some(ImageType::SurfaceNormals)
        } else if n == 7 {
            Some(ImageType::Infrared)
        } else {
            None
        }
    }

    /// The variant with the given number, for a number that names one.
    pub fn variant(n: u64) -> (r: ImageType)
        requires
            n < IMAGE_TYPE_COUNT,
        ensures
            r == ImageType::spec_from_discriminant(n),
            r.spec_discriminant() == n,
    {
        match ImageType::from_discriminant(n) {
            Some(kind) => kind,
            None => vstd::pervasive::unreached(),
        }
    }

    /// The wire value of the image kind: the number of its variant.
    pub fn to_value(self) -> (r: Value)
        ensures
            r@ == ValueView::Integer(self.spec_discriminant() as int),
    {
        Value::Integer(Integer::from_u64(self.discriminant()))
    }

    /// Decodes a wire value into an image kind.
    pub fn try_from(value: Value) -> (r: Result<ImageType, DecodeError>)
        ensures
            match r {
                Ok(kind) => ImageType::spec_try_from(value@) == Ok::<ImageType, DecodeErrorView>(
                    kind,
                ),
                Err(e) => ImageType::spec_try_from(value@) == Err::<ImageType, DecodeErrorView>(e@),
            },
    {
        match value {
            Value::Integer(n) => {
                let kind = match n.as_u64() {
                    Some(u) => ImageType::from_discriminant(u),
                    None => None,
                };
                match kind {
                    Some(kind) => Ok(kind),
                    None => Err(DecodeError::InvalidEnumTag(n)),
                }
            },
            _ => Err(DecodeError::FieldTypeMismatch(String::new(), TypeTag::Enumeration)),
        }
    }
}

/// The variant and its number determine each other: the eight variants have
/// the numbers zero to seven, each once.
pub proof fn lemma_discriminant_round_trip(kind: ImageType, n: u64)
    ensures
        ImageType::spec_from_discriminant(kind.spec_discriminant()) == kind,
        kind.spec_discriminant() < IMAGE_TYPE_COUNT,
        n < IMAGE_TYPE_COUNT ==> ImageType::spec_from_discriminant(n).spec_discriminant() == n,
{
}

/// Decoding the wire value of an image kind gives the kind back, and a wire
/// integer decodes to a kind exactly when it is one of zero to seven.
pub proof fn lemma_image_type_round_trip(kind: ImageType, n: int)
    ensures
        ImageType::spec_try_from(ValueView::Integer(kind.spec_discriminant() as int)) == Ok::<
            ImageType,
            DecodeErrorView,
        >(kind),
        ImageType::spec_try_from(ValueView::Integer(n)) is Ok <==> 0 <= n < 8,
        !(0 <= n < 8) ==> ImageType::spec_try_from(ValueView::Integer(n)) == Err::<
            ImageType,
            DecodeErrorView,
        >(DecodeErrorView::InvalidEnumTag(n)),
{
}

} // verus!
