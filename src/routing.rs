use vstd::prelude::*;
use vstd::string::*;

use crate::error::{NDIError, NDIResult};
use crate::find::{join_comma, join_with_commas, views_of};
use crate::marshal::{c_bytes_of, has_nul, to_c_bytes};
use crate::source::{can_marshal, native_of, NativeSource, Source};

verus! {

pub open spec fn str_views(v: Seq<&str>) -> Seq<Seq<char>> {
    v.map_values(|s: &str| s@)
}

/// The native creation record of a routing output, owning its buffers: its
/// name and its comma-joined groups as C strings.
#[derive(Clone, Debug)]
pub struct RouteCreate {
    pub ndi_name: Vec<u8>,
    pub groups: Vec<u8>,
}

/// A native routing output: its handle, and whether it is still to be
/// destroyed. Callers that share it serialise their calls on it.
pub struct RouteInstance {
    handle: usize,
    live: bool,
}

impl View for RouteInstance {
    type V = (usize, bool);

    closed spec fn view(&self) -> (usize, bool) {
        (self.handle, self.live)
    }
}

impl RouteInstance {
    /// The handle is never null.
    pub open spec fn wf(&self) -> bool {
        self@.0 != 0
    }

    /// Builds the native creation record for an output of this name in these
    /// groups. Fails with `InvalidCString` where the name or the joined groups
    /// hold a NUL character.
    pub fn create_settings(name: &str, groups: &[&str]) -> (r: NDIResult<RouteCreate>)
        ensures
            r is Ok <==> !has_nul(name@) && !has_nul(join_comma(str_views(groups@))),
            r is Err ==> r->Err_0 is InvalidCString,
            r is Ok ==> r->Ok_0.ndi_name@ == c_bytes_of(name@),
            r is Ok ==> r->Ok_0.groups@ == c_bytes_of(join_comma(str_views(groups@))),
    {
        let mut owned: Vec<String> = Vec::new();
        let mut i: usize = 0;
        while i < groups.len()
            invariant
                i <= groups@.len(),
                owned@.len() == i,
                views_of(owned@) == str_views(groups@).take(i as int),
            decreases groups@.len() - i,
        {
            let g: &str = groups[i];
            let ghost before = owned@;
            owned.push(String::from_str(g));
            assert forall|j: int| 0 <= j <= i implies views_of(owned@)[j] == str_views(
                groups@,
            )[j] by {
                if j < i {
                    assert(owned@[j] == before[j]);
                    assert(views_of(before)[j] == str_views(groups@).take(i as int)[j]);
                }
            }
            assert(views_of(owned@) =~= str_views(groups@).take(i + 1));
            i = i + 1;
        }
        assert(str_views(groups@).take(i as int) =~= str_views(groups@));
        let joined = join_with_commas(&owned);
        let ndi_name = to_c_bytes(name)?;
        let groups_c = to_c_bytes(joined.as_str())?;
        Ok(RouteCreate { ndi_name, groups: groups_c })
    }

    /// Takes the result of the native factory: `None` where the function table
    /// has no factory, else the handle it returned.
    pub fn create(created: Option<usize>) -> (r: NDIResult<RouteInstance>)
        ensures
            created is None ==> (r matches Err(NDIError::MissingSymbolV5(n)) && n@
                == "routing_create"@),
            created == Some(0usize) ==> (r matches Err(NDIError::UnexpectedNullPointer(n))
                && n@ == "routing_create"@),
            r is Ok <==> (created is Some && created != Some(0usize)),
            r is Ok ==> r->Ok_0.wf() && r->Ok_0@ == (created->Some_0, true),
    {
        match created {
            None => Err(NDIError::MissingSymbolV5("routing_create")),
            Some(h) => {
                if h == 0 {
                    Err(NDIError::UnexpectedNullPointer("routing_create"))
                } else {
                    Ok(RouteInstance { handle: h, live: true })
                }
            },
        }
    }

    /// The native handle, for the calls that take it.
    pub fn handle(&self) -> (r: usize)
        ensures
            r == self@.0,
    {
        self.handle
    }

    /// Retargets the output: hands the handle and a transient native record of
    /// `source` to `retarget`, the native call, which runs only where the
    /// function table has it (`has_change`) and the source can be marshaled.
    pub fn change<T, F: FnOnce(usize, &NativeSource) -> T>(
        &self,
        has_change: bool,
        source: &Source,
        retarget: F,
    ) -> (r: NDIResult<T>)
        requires
            forall|h: usize, rec: NativeSource| #[trigger] retarget.requires((h, &rec)),
        ensures
            !has_change ==> (r matches Err(NDIError::MissingSymbolV5(n)) && n@
                == "routing_change"@),
            has_change ==> (r is Ok <==> can_marshal(source@)),
            has_change && r is Err ==> r->Err_0 is InvalidCString,
            r is Ok ==> exists|rec: NativeSource|
                #[trigger] rec.view() == native_of(source@) && retarget.ensures(
                    (self@.0, &rec),
                    r->Ok_0,
                ),
    {
        if !has_change {
            return Err(NDIError::MissingSymbolV5("routing_change"));
        }
        let h = self.handle;
        match source.to_native() {
            Ok(rec) => {
                let out = retarget(h, &rec);
                assert(rec.view() == native_of(source@) && retarget.ensures((h, &rec), out));
                Ok(out)
            },
            Err(e) => Err(e),
        }
    }

    /// Detaches the output from its source: hands the handle to `detach`, the
    /// native call, which runs only where the function table has it.
    pub fn clear<T, F: FnOnce(usize) -> T>(&self, has_clear: bool, detach: F) -> (r: NDIResult<T>)
        requires
            forall|h: usize| #[trigger] detach.requires((h,)),
        ensures
            !has_clear ==> (r matches Err(NDIError::MissingSymbolV5(n)) && n@
                == "routing_clear"@),
            has_clear ==> (r matches Ok(out) && detach.ensures((self@.0,), out)),
    {
        if !has_clear {
            return Err(NDIError::MissingSymbolV5("routing_clear"));
        }
        Ok(detach(self.handle))
    }

    /// Hands the handle out for destruction the first time only: every later
    /// call gives `None`, so the native destroy runs at most once.
    pub fn destroy(&mut self) -> (r: Option<usize>)
        ensures
            final(self)@ == (old(self)@.0, false),
            r == (if old(self)@.1 {
                Some(old(self)@.0)
            } else {
                None::<usize>
            }),
    {
        if self.live {
            self.live = false;
            Some(self.handle)
        } else {
            None
        }
    }
}

} // verus!
