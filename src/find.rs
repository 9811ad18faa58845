use vstd::prelude::*;
use vstd::string::*;

use crate::error::{NDIError, NDIResult};
use crate::marshal::{c_bytes_of, has_nul, to_c_bytes};
use crate::source::{can_read, source_of, NativeSource, Source};

verus! {

/// The items joined into one text, separated by commas.
pub open spec fn join_comma(items: Seq<Seq<char>>) -> Seq<char>
    decreases items.len(),
{
    if items.len() == 0 {
        seq![]
    } else if items.len() == 1 {
        items[0]
    } else {
        join_comma(items.drop_last()) + seq![','] + items.last()
    }
}

/// The views of a list of strings.
pub open spec fn views_of(v: Seq<String>) -> Seq<Seq<char>> {
    v.map_values(|s: String| s@)
}

/// The native field that stands for a list: null where it is empty, else the
/// comma-joined list as a C string.
pub open spec fn c_list_of(items: Seq<Seq<char>>) -> Option<Seq<u8>> {
    if items.len() == 0 {
        None
    } else {
        Some(c_bytes_of(join_comma(items)))
    }
}

pub open spec fn opt_bytes(o: Option<Vec<u8>>) -> Option<Seq<u8>> {
    match o {
        Some(b) => Some(b@),
        None => None,
    }
}

/// Joins the items with commas.
pub fn join_with_commas(items: &Vec<String>) -> (r: String)
    ensures
        r@ == join_comma(views_of(items@)),
{
    let ghost all = views_of(items@);
    let mut out = String::new();
    let mut i: usize = 0;
    while i < items.len()
        invariant
            i <= items@.len(),
            all == views_of(items@),
            out@ == join_comma(all.take(i as int)),
        decreases items@.len() - i,
    {
        let ghost next = all.take(i + 1);
        assert(next.drop_last() =~= all.take(i as int));
        assert(next.last() == items@[i as int]@);
        if i > 0 {
            out.append(",");
            proof {
                reveal_strlit(",");
            }
            assert(out@ == join_comma(next.drop_last()) + seq![',']);
        } else {
            assert(out@ =~= seq![]);
            assert(next.len() == 1);
        }
        let item = items[i].as_str();
        assert(item@ == next.last());
        out.append(item);
        assert(out@ =~= join_comma(next));
        i = i + 1;
    }
    assert(all.take(i as int) =~= all);
    out
}

/// Discovery options, gathered by the caller and turned into a native
/// creation record by `build`.
#[derive(Clone, Debug)]
pub struct FindSettings {
    show_local_sources: bool,
    groups: Vec<String>,
    extra_ips: Vec<String>,
}

/// The native creation record of a find session, owning its buffers: the
/// flag, and the comma-joined group and extra-IP lists as C strings (`None`
/// for an empty list).
#[derive(Clone, Debug)]
pub struct FindCreate {
    pub show_local_sources: bool,
    pub groups: Option<Vec<u8>>,
    pub extra_ips: Option<Vec<u8>>,
}

impl View for FindSettings {
    type V = (bool, Seq<Seq<char>>, Seq<Seq<char>>);

    closed spec fn view(&self) -> (bool, Seq<Seq<char>>, Seq<Seq<char>>) {
        (self.show_local_sources, views_of(self.groups@), views_of(self.extra_ips@))
    }
}

impl FindSettings {
    /// No local sources, no groups, no extra addresses.
    pub fn new() -> (r: Self)
        ensures
            r@ == (false, Seq::<Seq<char>>::empty(), Seq::<Seq<char>>::empty()),
    {
        let r = FindSettings { show_local_sources: false, groups: Vec::new(), extra_ips: Vec::new() };
        assert(r@.1 =~= Seq::<Seq<char>>::empty());
        assert(r@.2 =~= Seq::<Seq<char>>::empty());
        r
    }

    pub fn show_local_sources(self, show: bool) -> (r: Self)
        ensures
            r@ == (show, self@.1, self@.2),
    {
        let mut s = self;
        s.show_local_sources = show;
        s
    }

    /// Adds a group to discover sources in.
    pub fn add_group(self, group: &str) -> (r: Self)
        ensures
            r@ == (self@.0, self@.1.push(group@), self@.2),
    {
        let mut s = self;
        s.groups.push(String::from_str(group));
        assert(views_of(s.groups@) =~= self@.1.push(group@));
        s
    }

    /// Adds an address, in text, to probe for sources besides discovery.
    pub fn add_extra_ip(self, addr: &str) -> (r: Self)
        ensures
            r@ == (self@.0, self@.1, self@.2.push(addr@)),
    {
        let mut s = self;
        s.extra_ips.push(String::from_str(addr));
        assert(views_of(s.extra_ips@) =~= self@.2.push(addr@));
        s
    }

    /// Builds the native creation record. The groups go to the groups field
    /// and the extra addresses to the extra-address field. Fails with
    /// `InvalidCString` where a joined list holds a NUL character.
    pub fn build(self) -> (r: NDIResult<FindCreate>)
        ensures
            r is Ok <==> !has_nul(join_comma(self@.1)) && !has_nul(join_comma(self@.2)),
            r is Err ==> r->Err_0 is InvalidCString,
            r is Ok ==> r->Ok_0.show_local_sources == self@.0,
            r is Ok ==> opt_bytes(r->Ok_0.groups) == c_list_of(self@.1),
            r is Ok ==> opt_bytes(r->Ok_0.extra_ips) == c_list_of(self@.2),
    {
        let groups_text = join_with_commas(&self.groups);
        let ips_text = join_with_commas(&self.extra_ips);
        let groups_c = to_c_bytes(groups_text.as_str())?;
        let ips_c = to_c_bytes(ips_text.as_str())?;
        let groups = if self.groups.len() == 0 {
            None
        } else {
            Some(groups_c)
        };
        let extra_ips = if self.extra_ips.len() == 0 {
            None
        } else {
            Some(ips_c)
        };
        Ok(FindCreate { show_local_sources: self.show_local_sources, groups, extra_ips })
    }
}

/// What the native "current sources" call gave back: the count it reported,
/// and the records it pointed at (`None` for a null pointer).
#[derive(Clone, Debug)]
pub struct NativeSourceList {
    pub count: u32,
    pub records: Option<Vec<NativeSource>>,
}

/// Every record can be read as a source.
pub open spec fn all_readable(recs: Seq<NativeSource>) -> bool {
    forall|i: int| 0 <= i < recs.len() ==> can_read(#[trigger] recs[i]@)
}

/// The sources that the records describe, in order.
pub open spec fn sources_of(recs: Seq<NativeSource>) -> Seq<(Seq<char>, Seq<char>)> {
    recs.map_values(|n: NativeSource| source_of(n@))
}

pub open spec fn source_views(v: Seq<Source>) -> Seq<(Seq<char>, Seq<char>)> {
    v.map_values(|s: Source| s@)
}

/// A native discovery session: its handle, and whether it is still to be
/// destroyed.
pub struct FindInstance {
    handle: usize,
    live: bool,
}

impl View for FindInstance {
    type V = (usize, bool);

    closed spec fn view(&self) -> (usize, bool) {
        (self.handle, self.live)
    }
}

impl FindInstance {
    /// The handle is never null.
    pub open spec fn wf(&self) -> bool {
        self@.0 != 0
    }

    /// Takes the result of the native factory: `None` where the function table
    /// has no factory, else the handle it returned.
    pub fn create(created: Option<usize>) -> (r: NDIResult<FindInstance>)
        ensures
            created is None ==> (r matches Err(NDIError::MissingSymbolV5(n)) && n@
                == "find_create_v2"@),
            created == Some(0usize) ==> (r matches Err(NDIError::UnexpectedNullPointer(n))
                && n@ == "find_create_v2"@),
            r is Ok <==> (created is Some && created != Some(0usize)),
            r is Ok ==> r->Ok_0.wf() && r->Ok_0@ == (created->Some_0, true),
    {
        match created {
            None => Err(NDIError::MissingSymbolV5("find_create_v2")),
            Some(h) => {
                if h == 0 {
                    Err(NDIError::UnexpectedNullPointer("find_create_v2"))
                } else {
                    Ok(FindInstance { handle: h, live: true })
                }
            },
        }
    }

    /// The native handle, for the calls that take it.
    pub fn handle(&self) -> (r: usize)
        ensures
            r == self@.0,
    {
        self.handle
    }

    /// Takes what the native "current sources" call gave back (`None` where
    /// the function table lacks it) and turns it into a snapshot of sources.
    /// No sources is an empty snapshot, not an error.
    pub fn get_current_sources(&mut self, reply: Option<NativeSourceList>) -> (r: NDIResult<
        Vec<Source>,
    >)
        ensures
            *final(self) == *old(self),
            reply is None ==> (r matches Err(NDIError::MissingSymbolV5(n)) && n@
                == "find_get_current_sources"@),
            reply is Some && reply->Some_0.count == 0 ==> (r matches Ok(v) && v@.len() == 0),
            reply is Some && reply->Some_0.count != 0 && reply->Some_0.records is None ==> (
            r matches Err(NDIError::UnexpectedNullPointer(n)) && n@ == "find_get_current_sources"@),
            reply is Some && reply->Some_0.count != 0 && reply->Some_0.records is Some ==> {
                &&& r is Ok <==> all_readable(reply->Some_0.records->Some_0@)
                &&& r is Ok ==> source_views(r->Ok_0@) == sources_of(
                    reply->Some_0.records->Some_0@,
                )
                &&& r is Err ==> r->Err_0 is Utf8Error
            },
    {
        let list = match reply {
            None => {
                return Err(NDIError::MissingSymbolV5("find_get_current_sources"));
            },
            Some(l) => l,
        };
        if list.count == 0 {
            return Ok(Vec::new());
        }
        let recs = match list.records {
            None => {
                return Err(NDIError::UnexpectedNullPointer("find_get_current_sources"));
            },
            Some(recs) => recs,
        };
        let mut sources: Vec<Source> = Vec::new();
        let mut i: usize = 0;
        #[verifier::loop_isolation(false)]
        while i < recs.len()
            invariant
                i <= recs@.len(),
                all_readable(recs@.take(i as int)),
                source_views(sources@) == sources_of(recs@.take(i as int)),
            decreases recs@.len() - i,
        {
            let ghost next = recs@.take(i + 1);
            assert(next.drop_last() =~= recs@.take(i as int));
            match Source::from_native(&recs[i]) {
                Ok(s) => {
                    assert(s@ == source_of(next.last()@));
                    let ghost before = sources@;
                    sources.push(s);
                    assert(sources@.drop_last() == before);
                    assert forall|j: int| 0 <= j < next.len() implies source_views(sources@)[j]
                        == sources_of(next)[j] by {
                        if j < i {
                            assert(sources@[j] == before[j]);
                            assert(source_views(before)[j] == sources_of(recs@.take(i as int))[j]);
                            assert(next[j] == recs@.take(i as int)[j]);
                        }
                    }
                    assert(source_views(sources@) =~= sources_of(next));
                    assert(all_readable(next)) by {
                        assert forall|j: int| 0 <= j < next.len() implies can_read(
                            #[trigger] next[j]@,
                        ) by {
                            if j < i {
                                assert(next[j] == recs@.take(i as int)[j]);
                            }
                        }
                    }
                },
                Err(e) => {
                    assert(!can_read(recs@[i as int]@));
                    return Err(e);
                },
            }
            i = i + 1;
        }
        assert(recs@.take(i as int) =~= recs@);
        Ok(sources)
    }

    /// Takes what the native wait gave back (`None` where the function table
    /// lacks it): whether a source appeared within the timeout.
    pub fn wait_for_sources(&mut self, reply: Option<bool>) -> (r: NDIResult<bool>)
        ensures
            *final(self) == *old(self),
            reply is None ==> (r matches Err(NDIError::MissingSymbolV5(n)) && n@
                == "find_wait_for_sources"@),
            reply is Some ==> r == Ok::<bool, NDIError>(reply->Some_0),
    {
        match reply {
            None => Err(NDIError::MissingSymbolV5("find_wait_for_sources")),
            Some(found) => Ok(found),
        }
    }

    /// Hands the handle out for destruction the first time only: every later
    /// call gives `None`, so the native destroy runs at most once.
    pub fn destroy(&mut self) -> (r: Option<usize>)
        ensures
            final(self)@ == (old(self)@.0, false),
            r == (if old(self)@.1 {
                Some(old(self)@.0)
            } else {
                None::<usize>
            }),
    {
        if self.live {
            self.live = false;
            Some(self.handle)
        } else {
            None
        }
    }
}

} // verus!
