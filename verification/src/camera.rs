//! The camera portal: the PipeWire nodes that stand for cameras.

use vstd::prelude::*;
use crate::proxy::{desktop_destination, desktop_path, Proxy, ProxyView};
use crate::keyed::{first_value, keys_unique, last_value, lemma_first_value_some};
use crate::text::str_equals;

verus! {

/// The models of a list of string pairs.
pub open spec fn props_view(v: Seq<(String, String)>) -> Seq<(Seq<char>, Seq<char>)> {
    v.map_values(|p: (String, String)| (p.0@, p.1@))
}

/// Whether a node with the given properties is a camera: its media role is
/// `Camera`.
pub open spec fn is_camera(props: Seq<(Seq<char>, Seq<char>)>) -> bool {
    first_value(props, "media.role"@) == Some("Camera"@)
}

/// A PipeWire camera stream.
#[derive(Debug)]
pub struct Stream {
    node_id: u32,
    properties: Vec<(String, String)>,
}

impl Stream {
    #[verifier::type_invariant]
    spec fn inv(self) -> bool {
        keys_unique(props_view(self.properties@))
    }

    /// The id of the PipeWire node.
    pub closed spec fn spec_node_id(self) -> u32 {
        self.node_id
    }

    /// The node's properties.
    pub closed spec fn spec_properties(self) -> Seq<(Seq<char>, Seq<char>)> {
        props_view(self.properties@)
    }

    /// The id of the PipeWire node.
    pub fn node_id(&self) -> (n: u32)
        ensures
            n == self.spec_node_id(),
    {
        self.node_id
    }

    /// The node properties, each name once.
    pub fn properties(&self) -> (p: Vec<(String, String)>)
        ensures
            props_view(p@) == self.spec_properties(),
            keys_unique(props_view(p@)),
    {
        proof {
            use_type_invariant(self);
        }
        let mut p: Vec<(String, String)> = Vec::new();
        let mut i: usize = 0;
        while i < self.properties.len()
            invariant
                i <= self.properties@.len(),
                props_view(p@) =~= props_view(self.properties@.subrange(0, i as int)),
            decreases self.properties@.len() - i,
        {
            let ghost before = p@;
            let e = &self.properties[i];
            p.push((e.0.clone(), e.1.clone()));
            assert(props_view(p@) =~= props_view(before).push((self.properties@[i as int].0@, self.properties@[i as int].1@)));
            assert(self.properties@.subrange(0, i + 1) =~= self.properties@.subrange(0, i as int).push(self.properties@[i as int]));
            i = i + 1;
        }
        assert(self.properties@.subrange(0, self.properties@.len() as int) =~= self.properties@);
        p
    }
}

/// The value of the first property named `key`.
fn find_prop<'a>(props: &'a Vec<(String, String)>, key: &str) -> (r: Option<&'a str>)
    ensures
        match r {
            Some(v) => first_value(props_view(props@), key@) == Some(v@),
            None => first_value(props_view(props@), key@) is None,
        },
{
    let mut i: usize = 0;
    assert(props_view(props@).skip(0) =~= props_view(props@));
    while i < props.len()
        invariant
            i <= props@.len(),
            first_value(props_view(props@), key@) == first_value(props_view(props@).skip(i as int), key@),
        decreases props@.len() - i,
    {
        let ghost rest = props_view(props@).skip(i as int);
        assert(rest[0] == (props@[i as int].0@, props@[i as int].1@));
        if str_equals(props[i].0.as_str(), key) {
            return Some(props[i].1.as_str());
        }
        assert(rest.drop_first() =~= props_view(props@).skip(i + 1));
        i = i + 1;
    }
    None
}

/// Whether an entry of `props` is named `key`.
fn has_prop(props: &Vec<(String, String)>, key: &str) -> (b: bool)
    ensures
        b == first_value(props_view(props@), key@) is Some,
{
    let mut i: usize = 0;
    while i < props.len()
        invariant
            i <= props@.len(),
            forall|j: int| 0 <= j < i ==> props_view(props@)[j].0 != key@,
        decreases props@.len() - i,
    {
        if str_equals(props[i].0.as_str(), key) {
            assert(props_view(props@).len() == props@.len());
            assert(props_view(props@)[i as int].0 == key@);
            proof {
                lemma_first_value_some(props_view(props@), key@);
            }
            return true;
        }
        i = i + 1;
    }
    proof {
        lemma_first_value_some(props_view(props@), key@);
    }
    false
}

/// The properties as a map holds them: each name once, with the last value
/// given for it.
fn unique_props(props: Vec<(String, String)>) -> (r: Vec<(String, String)>)
    ensures
        keys_unique(props_view(r@)),
        forall|k: Seq<char>| first_value(props_view(r@), k) == last_value(props_view(props@), k),
{
    let ghost all = props_view(props@);
    let mut rest = props;
    let mut out: Vec<(String, String)> = Vec::new();
    assert(all.subrange(all.len() as int, all.len() as int) =~= Seq::<(Seq<char>, Seq<char>)>::empty());
    while rest.len() > 0
        invariant
            rest@.len() <= all.len(),
            props_view(rest@) =~= all.subrange(0, rest@.len() as int),
            keys_unique(props_view(out@)),
            forall|k: Seq<char>| first_value(props_view(out@), k) == last_value(all.subrange(rest@.len() as int, all.len() as int), k),
        decreases rest@.len(),
    {
        let ghost m = rest@.len() - 1;
        let ghost seg = all.subrange(m as int, all.len() as int);
        let ghost before = props_view(out@);
        let ghost old_rest = rest@;
        assert(all[m as int] == props_view(old_rest)[m as int]);
        let e = match rest.pop() {
            Some(e) => e,
            None => {
                return out;
            },
        };
        assert(seg.drop_first() =~= all.subrange(m + 1, all.len() as int));
        assert(seg[0] == (e.0@, e.1@));
        assert(props_view(rest@) =~= all.subrange(0, rest@.len() as int));
        let present = has_prop(&out, e.0.as_str());
        if !present {
            let ghost key = e.0@;
            let ghost val = e.1@;
            out.insert(0, e);
            let ghost after = props_view(out@);
            assert(after.drop_first() =~= before);
            assert(after[0] == (key, val));
            proof {
                lemma_first_value_some(before, key);
                assert forall|i: int, j: int| 0 <= i < j < after.len() implies after[i].0 != after[j].0 by {
                    if i == 0 {
                        assert(before[j - 1].0 != key);
                    } else {
                        assert(before[i - 1].0 != before[j - 1].0);
                    }
                }
                assert forall|k: Seq<char>| first_value(after, k) == last_value(seg, k) by {
                    if k != key {
                        assert(first_value(after, k) == first_value(before, k));
                    } else {
                        assert(first_value(after, k) == Some(val));
                    }
                }
            }
        } else {
            proof {
                let key = seg[0].0;
                assert forall|k: Seq<char>| first_value(before, k) == last_value(seg, k) by {
                    assert(last_value(seg.drop_first(), k) == first_value(before, k));
                }
            }
        }
    }
    out
}

/// The camera stream of a PipeWire node with the given id and properties;
/// none where the node is not a camera. The stream holds the properties as
/// a map does: each name once, with the last value given for it.
pub fn camera_stream(node_id: u32, properties: Vec<(String, String)>) -> (s: Option<Stream>)
    ensures
        match s {
            Some(st) => is_camera(props_view(properties@)) && st.spec_node_id() == node_id
                && keys_unique(st.spec_properties())
                && forall|k: Seq<char>| first_value(st.spec_properties(), k) == last_value(
                    props_view(properties@),
                    k,
                ),
            None => !is_camera(props_view(properties@)),
        },
{
    let camera = match find_prop(&properties, "media.role") {
        Some(role) => str_equals(role, "Camera"),
        None => false,
    };
    if camera {
        Some(Stream { node_id, properties: unique_props(properties) })
    } else {
        None
    }
}

/// Access the camera.
///
/// Wrapper of the DBus interface `org.freedesktop.portal.Camera`.
#[derive(Debug)]
pub struct Camera {
    proxy: Proxy,
}

impl View for Camera {
    type V = ProxyView;

    closed spec fn view(&self) -> ProxyView {
        self.proxy@
    }
}

impl Camera {
    /// The portal, which implements the given version of its interface.
    pub fn new(version: u32) -> (p: Camera)
        ensures
            p@.destination == desktop_destination(),
            p@.interface == "org.freedesktop.portal.Camera"@,
            p@.path == desktop_path(),
            p@.version == version,
    {
        Camera { proxy: Proxy::new_desktop("org.freedesktop.portal.Camera", version) }
    }

    /// Where the portal's calls go.
    pub fn inner(&self) -> (p: &Proxy)
        ensures
            p@ == self@,
    {
        &self.proxy
    }
}

} // verus!
