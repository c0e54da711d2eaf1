//! Checking a downloaded protocol descriptor (`liqi.desc`): it must decode as
//! a protobuf `FileDescriptorSet` and describe the `lq` package, the only one
//! the protocol types are generated from.

use prost::Message;
use vstd::prelude::*;

verus! {

#[verifier::external_type_specification]
#[verifier::external_body]
pub struct ExDecodeError(prost::DecodeError);

/// The package name of each file that a `FileDescriptorSet` encoded in
/// `bytes` describes, in order, or `None` when `bytes` does not decode.
pub uninterp spec fn descriptor_packages(bytes: Seq<u8>) -> Option<Seq<Option<Seq<char>>>>;

pub open spec fn packages_view(p: Seq<Option<String>>) -> Seq<Option<Seq<char>>> {
    p.map_values(|o: Option<String>| match o {
        Some(s) => Some(s@),
        None => None,
    })
}

/// prost-types' `FileDescriptorSet::decode`, keeping the `package` field of
/// each file. Its result is named `descriptor_packages`: decoding is a
/// function of the bytes alone.
#[verifier::external_body]
fn decode_descriptor_packages(bytes: &[u8]) -> (r: Result<Vec<Option<String>>, prost::DecodeError>)
    ensures
        match descriptor_packages(bytes@) {
            Some(p) => r is Ok && packages_view(r->Ok_0@) == p,
            None => r is Err,
        },
{
    prost_types::FileDescriptorSet::decode(bytes).map(|set| set.file.into_iter().map(|file| file.package).collect())
}

/// Why a descriptor was refused.
#[derive(Debug, Clone, Copy, PartialEq, Eq, Structural)]
pub enum DescriptorError {
    /// The bytes are not a `FileDescriptorSet`.
    Malformed,
    /// No file of the set belongs to the `lq` package.
    MissingLqPackage,
}

pub open spec fn has_lq_package(p: Seq<Option<Seq<char>>>) -> bool {
    exists|i: int| 0 <= i < p.len() && p[i] == Some("lq"@)
}

/// The verdict on the packages of a decoded descriptor: accepted exactly
/// when one of them is `lq`.
pub fn check_descriptor_packages(packages: &[Option<String>]) -> (r: Result<(), DescriptorError>)
    ensures
        r == (if has_lq_package(packages_view(packages@)) {
            Ok::<(), DescriptorError>(())
        } else {
            Err::<(), DescriptorError>(DescriptorError::MissingLqPackage)
        }),
{
    let mut i: usize = 0;
    while i < packages.len()
        invariant
            i <= packages@.len(),
            forall|k: int| 0 <= k < i ==> packages_view(packages@)[k] != Some("lq"@),
        decreases packages@.len() - i,
    {
        let is_lq = match &packages[i] {
            Some(name) => crate::text::chars_eq(&crate::text::chars_of(name.as_str()), "lq"),
            None => false,
        };
        assert(packages_view(packages@)[i as int] == match packages@[i as int] {
            Some(s) => Some(s@),
            None => None::<Seq<char>>,
        });
        if is_lq {
            return Ok(());
        }
        i += 1;
    }
    Err(DescriptorError::MissingLqPackage)
}

pub open spec fn spec_validate_descriptor(bytes: Seq<u8>) -> Result<(), DescriptorError> {
    match descriptor_packages(bytes) {
        None => Err(DescriptorError::Malformed),
        Some(p) => if has_lq_package(p) {
            Ok(())
        } else {
            Err(DescriptorError::MissingLqPackage)
        },
    }
}

/// Accepts a descriptor that decodes and describes the `lq` package.
pub fn validate_descriptor(bytes: &[u8]) -> (r: Result<(), DescriptorError>)
    ensures
        r == spec_validate_descriptor(bytes@),
{
    let decoded = decode_descriptor_packages(bytes);
    if decoded.is_err() {
        return Err(DescriptorError::Malformed);
    }
    let packages = decoded.unwrap();
    proof {
        assert(descriptor_packages(bytes@)->0 == packages_view(packages@));
    }
    check_descriptor_packages(packages.as_slice())
}

} // verus!
