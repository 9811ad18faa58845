use vstd::prelude::*;
use vstd::utf8::*;

use crate::error::{NDIError, NDIResult};
use crate::marshal::{
    c_bytes_of, has_nul, lemma_c_bytes_text, string_from_c_bytes, text_of_c_bytes, to_c_bytes,
};

verus! {

broadcast use vstd::utf8::group_utf8_lib;

/// A discovered or application-given endpoint: its display name and its
/// network address.
#[derive(Clone, Debug)]
pub struct Source {
    pub ndi_name: String,
    pub url_address: String,
}

/// The native source record as it crosses the boundary: the NUL-terminated
/// bytes of the name and of the address.
#[derive(Clone, Debug)]
pub struct NativeSource {
    pub ndi_name: Vec<u8>,
    pub url_address: Vec<u8>,
}

impl View for Source {
    type V = (Seq<char>, Seq<char>);

    open spec fn view(&self) -> (Seq<char>, Seq<char>) {
        (self.ndi_name@, self.url_address@)
    }
}

impl View for NativeSource {
    type V = (Seq<u8>, Seq<u8>);

    open spec fn view(&self) -> (Seq<u8>, Seq<u8>) {
        (self.ndi_name@, self.url_address@)
    }
}

/// Both fields of the source can be written as C strings.
pub open spec fn can_marshal(s: (Seq<char>, Seq<char>)) -> bool {
    !has_nul(s.0) && !has_nul(s.1)
}

/// The native record that stands for a source.
pub open spec fn native_of(s: (Seq<char>, Seq<char>)) -> (Seq<u8>, Seq<u8>) {
    (c_bytes_of(s.0), c_bytes_of(s.1))
}

/// Both C strings of the record are valid UTF-8.
pub open spec fn can_read(n: (Seq<u8>, Seq<u8>)) -> bool {
    valid_utf8(text_of_c_bytes(n.0)) && valid_utf8(text_of_c_bytes(n.1))
}

/// The source that a native record describes.
pub open spec fn source_of(n: (Seq<u8>, Seq<u8>)) -> (Seq<char>, Seq<char>) {
    (decode_utf8(text_of_c_bytes(n.0)), decode_utf8(text_of_c_bytes(n.1)))
}

/// Writing a source out as a native record and reading that record back gives
/// the same source, whenever neither field holds a NUL character.
pub proof fn lemma_native_round_trip(s: (Seq<char>, Seq<char>))
    requires
        can_marshal(s),
    ensures
        can_read(native_of(s)),
        source_of(native_of(s)) == s,
{
    lemma_c_bytes_text(s.0);
    lemma_c_bytes_text(s.1);
}

impl Source {
    /// Copies name and address out of a native record, strictly: fails with
    /// `Utf8Error` where either is not valid UTF-8.
    pub fn from_native(rec: &NativeSource) -> (r: NDIResult<Source>)
        ensures
            r is Ok <==> can_read(rec@),
            r is Ok ==> r->Ok_0@ == source_of(rec@),
            r is Err ==> r->Err_0 is Utf8Error,
    {
        let ndi_name = string_from_c_bytes(rec.ndi_name.as_slice())?;
        let url_address = string_from_c_bytes(rec.url_address.as_slice())?;
        Ok(Source { ndi_name, url_address })
    }

    pub(crate) fn to_native(&self) -> (r: NDIResult<NativeSource>)
        ensures
            r is Ok <==> can_marshal(self@),
            r is Ok ==> r->Ok_0@ == native_of(self@),
            r is Err ==> r->Err_0 is InvalidCString,
    {
        let ndi_name = to_c_bytes(self.ndi_name.as_str())?;
        let url_address = to_c_bytes(self.url_address.as_str())?;
        Ok(NativeSource { ndi_name, url_address })
    }

    /// Builds a transient native record for this source and hands it to `f`;
    /// the record and its buffers live only for that call. Fails with
    /// `InvalidCString`, without calling `f`, where either field holds a NUL.
    pub fn with_raw<T, F: FnOnce(&NativeSource) -> T>(&self, f: F) -> (r: NDIResult<T>)
        requires
            forall|rec: NativeSource| #[trigger] f.requires((&rec,)),
        ensures
            r is Ok <==> can_marshal(self@),
            r is Err ==> r->Err_0 is InvalidCString,
            r is Ok ==> exists|rec: NativeSource|
                #[trigger] rec.view() == native_of(self@) && f.ensures((&rec,), r->Ok_0),
    {
        match self.to_native() {
            Ok(rec) => {
                let out = f(&rec);
                assert(rec.view() == native_of(self@) && f.ensures((&rec,), out));
                Ok(out)
            },
            Err(e) => Err(e),
        }
    }
}

} // verus!
