//! The node through which the graphics device is reached.
use vstd::prelude::*;

use crate::markup;
use crate::scanner::common;
use crate::text;

verus! {

/// A node of the kernel for a graphics device.
#[derive(Debug)]
pub struct DeviceNode {
    /// The name of its file.
    pub name: String,
    /// What the kernel says of the device, where that can be read.
    pub uevent: Option<String>,
}

/// The directory of the nodes.
#[derive(Debug)]
pub enum DriListing {
    /// It is not there.
    Missing,
    /// It cannot be read, and why.
    Unreadable(String),
    /// What it holds.
    Nodes(Vec<DeviceNode>),
}

/// A text in lower case.
pub uninterp spec fn lowered(s: Seq<char>) -> Seq<char>;

/// `str::to_lowercase`, which maps each character to lower case by the tables
/// of Unicode. It depends on the text alone.
#[verifier::external_body]
fn to_lowercase(s: &str) -> (r: String)
    ensures
        r@ == lowered(s@),
{
    s.to_lowercase()
}

/// A node that renders.
pub open spec fn is_render_name(name: Seq<char>) -> bool {
    text::has_prefix(name, "renderD"@)
}

/// The names of nodes that render.
pub open spec fn render_names(nodes: Seq<DeviceNode>) -> Seq<Seq<char>>
    decreases nodes.len(),
{
    if nodes.len() == 0 {
        Seq::empty()
    } else if is_render_name(nodes.last().name@) {
        render_names(nodes.drop_last()).push(nodes.last().name@)
    } else {
        render_names(nodes.drop_last())
    }
}

/// The names of nodes that render, in order.
pub open spec fn ordered_names(nodes: Seq<DeviceNode>) -> Seq<Seq<char>> {
    common::sorted(render_names(nodes))
}

/// The names of nodes that render, in order; see [`ordered_names`].
pub fn render_node_names(nodes: &Vec<DeviceNode>) -> (r: Vec<String>)
    ensures
        text::texts(r@) == ordered_names(nodes@),
{
    let mut names: Vec<String> = Vec::new();
    let prefix = text::chars_of("renderD");
    let mut i: usize = 0;
    assert(text::texts(names@) == render_names(nodes@.take(0)));
    while i < nodes.len()
        invariant
            i <= nodes@.len(),
            prefix@ == "renderD"@,
            text::texts(names@) == render_names(nodes@.take(i as int)),
        decreases nodes@.len() - i,
    {
        assert(nodes@.take(i + 1).drop_last() == nodes@.take(i as int));
        let name = text::chars_of(nodes[i].name.as_str());
        if text::starts_with(name.as_slice(), prefix.as_slice()) {
            let ghost before = text::texts(names@);
            names.push(nodes[i].name.clone());
            assert(text::texts(names@) == before.push(nodes@[i as int].name@));
        }
        i = i + 1;
    }
    assert(nodes@.take(nodes@.len() as int) == nodes@);
    common::sort_texts(&names)
}

/// What the kernel says of the first node with this name.
pub open spec fn uevent_of(nodes: Seq<DeviceNode>, name: Seq<char>) -> Option<Seq<char>>
    decreases nodes.len(),
{
    if nodes.len() == 0 {
        None
    } else if nodes[0].name@ == name {
        common::maybe(nodes[0].uevent)
    } else {
        uevent_of(nodes.skip(1), name)
    }
}

/// What the kernel says of the first node with this name; see [`uevent_of`].
fn find_uevent(nodes: &Vec<DeviceNode>, name: &str) -> (r: Option<String>)
    ensures
        common::maybe(r) == uevent_of(nodes@, name@),
{
    let mut i: usize = 0;
    assert(nodes@.skip(0) == nodes@);
    while i < nodes.len()
        invariant
            i <= nodes@.len(),
            uevent_of(nodes@, name@) == uevent_of(nodes@.skip(i as int), name@),
        decreases nodes@.len() - i,
    {
        assert(nodes@.skip(i as int).skip(1) == nodes@.skip(i + 1));
        if text::same_text(nodes[i].name.as_str(), name) {
            return match &nodes[i].uevent {
                Some(u) => Some(u.clone()),
                None => None,
            };
        }
        i = i + 1;
    }
    None
}

/// The path of a node.
pub open spec fn node_path(name: Seq<char>) -> Seq<char> {
    "/dev/dri/"@ + name
}

/// A node fits what is configured: by its name, or because what the kernel
/// says of the device holds it in either case of letters. `lowered_uevent` and
/// `lowered_wanted` are the two texts in lower case.
pub open spec fn fits(
    name: Seq<char>,
    wanted: Seq<char>,
    lowered_uevent: Seq<char>,
    lowered_wanted: Seq<char>,
) -> bool {
    name == wanted || markup::occurs(lowered_uevent, lowered_wanted)
}

/// Whether a node fits what is configured; see [`fits`].
pub fn node_fits(name: &str, wanted: &str, lowered_uevent: &str, lowered_wanted: &str) -> (r: bool)
    ensures
        r == fits(name@, wanted@, lowered_uevent@, lowered_wanted@),
{
    text::same_text(name, wanted) || markup::contains(lowered_uevent, lowered_wanted)
}

/// The first node that fits what is configured; nodes of which the kernel says
/// nothing do not count.
pub open spec fn first_fitting(names: Seq<Seq<char>>, nodes: Seq<DeviceNode>, wanted: Seq<char>) -> Option<
    Seq<char>,
>
    decreases names.len(),
{
    if names.len() == 0 {
        None
    } else {
        match first_fitting(names.drop_last(), nodes, wanted) {
            Some(n) => Some(n),
            None => match uevent_of(nodes, names.last()) {
                Some(u) => if fits(names.last(), wanted, lowered(u), lowered(wanted)) {
                    Some(names.last())
                } else {
                    None
                },
                None => None,
            },
        }
    }
}

/// How well a device is suited, by what the kernel says of it: best one by
/// NVIDIA, then one by AMD.
pub open spec fn score_of(uevent: Option<Seq<char>>) -> int {
    match uevent {
        None => 0,
        Some(u) => if markup::occurs(u, "PCI_ID=10DE"@) {
            100
        } else if markup::occurs(u, "PCI_ID=1002"@) {
            50
        } else {
            0
        },
    }
}

/// How well a device is suited; see [`score_of`].
pub fn score(uevent: Option<&str>) -> (r: i32)
    ensures
        r == score_of(
            match uevent {
                Some(u) => Some(u@),
                None => None,
            },
        ),
{
    match uevent {
        None => 0,
        Some(u) => if markup::contains(u, "PCI_ID=10DE") {
            100
        } else if markup::contains(u, "PCI_ID=1002") {
            50
        } else {
            0
        },
    }
}

/// Index of the first node of the best suited device.
pub open spec fn best_of(names: Seq<Seq<char>>, nodes: Seq<DeviceNode>) -> int
    decreases names.len(),
{
    if names.len() <= 1 {
        0
    } else {
        let best = best_of(names.drop_last(), nodes);
        if score_of(uevent_of(nodes, names.last())) > score_of(uevent_of(nodes, names[best])) {
            names.len() - 1
        } else {
            best
        }
    }
}

/// No device is better suited than the best.
pub proof fn best_is_best(names: Seq<Seq<char>>, nodes: Seq<DeviceNode>)
    requires
        names.len() > 0,
    ensures
        0 <= best_of(names, nodes) < names.len(),
        forall|i: int|
            #![trigger names[i]]
            0 <= i < names.len() ==> score_of(uevent_of(nodes, names[i])) <= score_of(
                uevent_of(nodes, names[best_of(names, nodes)]),
            ),
    decreases names.len(),
{
    if names.len() > 1 {
        let rest = names.drop_last();
        best_is_best(rest, nodes);
        assert forall|i: int| #![trigger names[i]] 0 <= i < names.len() implies score_of(
            uevent_of(nodes, names[i]),
        ) <= score_of(uevent_of(nodes, names[best_of(names, nodes)])) by {
            if i < rest.len() {
                assert(rest[i] == names[i]);
            }
        }
    }
}

/// The node to be used, or why there is none: the one in the environment, else
/// the one that is configured by its path, name or device, else that of the
/// best suited device. `configured_exists` says that a configured path is
/// there.
pub open spec fn node_of(
    environment: Option<Seq<char>>,
    configured: Option<Seq<char>>,
    configured_exists: bool,
    dri: DriListing,
) -> Result<Seq<char>, Seq<char>> {
    if environment is Some {
        Ok(environment->0)
    } else {
        match dri {
            DriListing::Missing => Err("No /dev/dri directory found"@),
            DriListing::Unreadable(e) => Err("Failed to read /dev/dri: "@ + e@),
            DriListing::Nodes(nodes) => {
                let names = ordered_names(nodes@);
                if names.len() == 0 {
                    Err("No render node found in /dev/dri"@)
                } else {
                    match configured {
                        Some(wanted) => if wanted.len() > 0 && wanted[0] == '/' {
                            if configured_exists {
                                Ok(wanted)
                            } else {
                                Err("Configured GPU path does not exist: "@ + wanted)
                            }
                        } else {
                            match first_fitting(names, nodes@, wanted) {
                                Some(n) => Ok(node_path(n)),
                                None => Err("No GPU found matching configuration: "@ + wanted),
                            }
                        },
                        None => Ok(node_path(names[best_of(names, nodes@)])),
                    }
                }
            },
        }
    }
}

/// The first node that fits what is configured; see [`first_fitting`].
fn find_fitting(names: &Vec<String>, nodes: &Vec<DeviceNode>, wanted: &str) -> (r: Option<String>)
    ensures
        common::maybe(r) == first_fitting(text::texts(names@), nodes@, wanted@),
{
    let ghost all = text::texts(names@);
    let lowered_wanted = to_lowercase(wanted);
    let mut r: Option<String> = None;
    let mut i: usize = 0;
    while i < names.len()
        invariant
            i <= names@.len(),
            all == text::texts(names@),
            lowered_wanted@ == lowered(wanted@),
            common::maybe(r) == first_fitting(all.take(i as int), nodes@, wanted@),
        decreases names@.len() - i,
    {
        proof {
            assert(all.take(i + 1).drop_last() == all.take(i as int));
            assert(all.take(i + 1).last() == names@[i as int]@);
        }
        if let None = r {
            if let Some(u) = find_uevent(nodes, names[i].as_str()) {
                let lowered_uevent = to_lowercase(u.as_str());
                if node_fits(
                    names[i].as_str(),
                    wanted,
                    lowered_uevent.as_str(),
                    lowered_wanted.as_str(),
                ) {
                    r = Some(names[i].clone());
                }
            }
        }
        i = i + 1;
    }
    assert(all.take(all.len() as int) == all);
    r
}

/// Index of the first node of the best suited device; see [`best_of`].
fn find_best(names: &Vec<String>, nodes: &Vec<DeviceNode>) -> (r: usize)
    requires
        names@.len() > 0,
    ensures
        r == best_of(text::texts(names@), nodes@),
        r < names@.len(),
{
    let ghost all = text::texts(names@);
    let mut best: usize = 0;
    let mut best_score: i32 = score_named(nodes, names[0].as_str());
    let mut i: usize = 1;
    assert(all.take(1).len() == 1);
    assert(all[0] == names@[0]@);
    while i < names.len()
        invariant
            1 <= i <= names@.len(),
            all == text::texts(names@),
            best < i,
            best == best_of(all.take(i as int), nodes@),
            best_score == score_of(uevent_of(nodes@, all[best as int])),
        decreases names@.len() - i,
    {
        proof {
            assert(all.take(i + 1).drop_last() == all.take(i as int));
            assert(all.take(i + 1).last() == names@[i as int]@);
            assert(all.take(i as int)[best as int] == all[best as int]);
        }
        let s = score_named(nodes, names[i].as_str());
        if s > best_score {
            best = i;
            best_score = s;
        }
        i = i + 1;
    }
    assert(all.take(all.len() as int) == all);
    best
}

/// How well the device of a node is suited.
fn score_named(nodes: &Vec<DeviceNode>, name: &str) -> (r: i32)
    ensures
        r == score_of(uevent_of(nodes@, name@)),
{
    match find_uevent(nodes, name) {
        Some(u) => score(Some(u.as_str())),
        None => score(None),
    }
}

/// The node to be used; see [`node_of`].
pub fn find_render_node(
    environment: Option<&str>,
    configured: Option<&str>,
    configured_exists: bool,
    dri: &DriListing,
) -> (r: Result<String, String>)
    ensures
        ({
            let expected = node_of(
                match environment {
                    Some(e) => Some(e@),
                    None => None,
                },
                match configured {
                    Some(c) => Some(c@),
                    None => None,
                },
                configured_exists,
                *dri,
            );
            match r {
                Ok(n) => expected == Ok::<Seq<char>, Seq<char>>(n@),
                Err(e) => expected == Err::<Seq<char>, Seq<char>>(e@),
            }
        }),
{
    if let Some(e) = environment {
        return Ok(e.to_owned());
    }
    let nodes = match dri {
        DriListing::Missing => return Err("No /dev/dri directory found".to_owned()),
        DriListing::Unreadable(e) => return Err(
            text::joined("Failed to read /dev/dri: ", e.as_str()),
        ),
        DriListing::Nodes(nodes) => nodes,
    };
    let names = render_node_names(nodes);
    proof {
        assert(ordered_names(nodes@).len() == names@.len());
    }
    if names.len() == 0 {
        return Err("No render node found in /dev/dri".to_owned());
    }
    match configured {
        Some(wanted) => {
            let chars = text::chars_of(wanted);
            if chars.len() > 0 && chars[0] == '/' {
                if configured_exists {
                    return Ok(wanted.to_owned());
                }
                return Err(text::joined("Configured GPU path does not exist: ", wanted));
            }
            match find_fitting(&names, nodes, wanted) {
                Some(n) => Ok(text::joined("/dev/dri/", n.as_str())),
                None => Err(text::joined("No GPU found matching configuration: ", wanted)),
            }
        },
        None => {
            let best = find_best(&names, nodes);
            proof {
                assert(ordered_names(nodes@)[best as int] == names@[best as int]@);
            }
            Ok(text::joined("/dev/dri/", names[best].as_str()))
        },
    }
}

/// The lines of a text; at a line's end a carriage return before the line feed
/// does not count.
pub open spec fn line_of(pieces: Seq<Seq<char>>, i: int) -> Seq<char> {
    let p = pieces[i];
    if i < pieces.len() - 1 && p.len() > 0 && p.last() == '\r' {
        p.drop_last()
    } else {
        p
    }
}

/// What the first line says that names the driver.
pub open spec fn driver_line(pieces: Seq<Seq<char>>, from: int) -> Option<Seq<char>>
    decreases pieces.len() - from,
{
    if from >= pieces.len() {
        None
    } else if text::has_prefix(line_of(pieces, from), "DRIVER="@) {
        Some(line_of(pieces, from).skip("DRIVER="@.len() as int))
    } else {
        driver_line(pieces, from + 1)
    }
}

/// The name of a device: its driver, as the kernel says it, else the path of
/// its node.
pub open spec fn device_name(uevent: Option<Seq<char>>, node: Seq<char>) -> Seq<char> {
    match uevent {
        None => node,
        Some(u) => match driver_line(text::split_on(u, '\n'), 0) {
            Some(d) => d,
            None => node,
        },
    }
}

/// The name of a device; see [`device_name`].
pub fn gpu_name(uevent: Option<&str>, node: &str) -> (r: String)
    ensures
        r@ == device_name(
            match uevent {
                Some(u) => Some(u@),
                None => None,
            },
            node@,
        ),
{
    let said: &str = match uevent {
        Some(u) => u,
        None => return node.to_owned(),
    };
    let chars = text::chars_of(said);
    let pieces = text::split_chars(chars.as_slice(), '\n');
    let prefix = text::chars_of("DRIVER=");
    let ghost all = text::split_on(said@, '\n');
    assert(all.len() == pieces@.len());
    let mut i: usize = 0;
    while i < pieces.len()
        invariant
            i <= pieces@.len(),
            uevent == Some(said),
            all == text::split_on(said@, '\n'),
            all == text::views(pieces@),
            prefix@ == "DRIVER="@,
            driver_line(all, 0) == driver_line(all, i as int),
        decreases pieces@.len() - i,
    {
        assert(all[i as int] == pieces@[i as int]@);
        let piece = &pieces[i];
        let len: usize = piece.len();
        let end: usize = if i < pieces.len() - 1 && len > 0 && piece[len - 1] == '\r' {
            len - 1
        } else {
            len
        };
        let line = text::sub_chars(piece.as_slice(), 0, end);
        assert(line@ == line_of(all, i as int));
        if text::starts_with(line.as_slice(), prefix.as_slice()) {
            let rest = text::sub_chars(line.as_slice(), prefix.len(), line.len());
            assert(rest@ == line@.skip(prefix@.len() as int));
            return text::string_of(rest.as_slice());
        }
        i = i + 1;
    }
    node.to_owned()
}

/// A node is among those that render exactly if it is there and its name begins
/// with `renderD`, and putting the names in order loses and adds none.
pub proof fn every_render_node_is_named(nodes: Seq<DeviceNode>, name: Seq<char>)
    ensures
        ordered_names(nodes).contains(name) <==> common::begins(name, "renderD"@) && exists|i: int|
            0 <= i < nodes.len() && (#[trigger] nodes[i]).name@ == name,
        common::in_order(ordered_names(nodes)),
        ordered_names(nodes).len() == render_names(nodes).len(),
{
    broadcast use vstd::seq_lib::group_to_multiset_ensures;

    common::sorted_is_in_order(render_names(nodes));
    let names = render_names(nodes);
    assert(ordered_names(nodes).contains(name) <==> ordered_names(nodes).to_multiset().count(name) > 0);
    assert(names.contains(name) <==> names.to_multiset().count(name) > 0);
    assert(ordered_names(nodes).len() == ordered_names(nodes).to_multiset().len());
    named_where_it_renders(nodes, name);
}

/// A node is named exactly if it is there and its name is that of one that
/// renders.
proof fn named_where_it_renders(nodes: Seq<DeviceNode>, name: Seq<char>)
    ensures
        render_names(nodes).contains(name) <==> common::begins(name, "renderD"@) && exists|i: int|
            0 <= i < nodes.len() && (#[trigger] nodes[i]).name@ == name,
    decreases nodes.len(),
{
    let n = "renderD"@.len() as int;
    if common::begins(name, "renderD"@) {
        assert(name.take(n) == "renderD"@);
    }
    if is_render_name(name) {
        assert forall|i: int| 0 <= i < n implies #[trigger] name[i] == "renderD"@[i] by {
            assert(name.take(n)[i] == name[i]);
        }
    }
    assert(is_render_name(name) <==> common::begins(name, "renderD"@));
    if nodes.len() > 0 {
        let rest = nodes.drop_last();
        let last = nodes.len() - 1;
        named_where_it_renders(rest, name);
        assert(nodes[last] == nodes.last());
        assert(forall|i: int| #![trigger nodes[i]] 0 <= i < last ==> nodes[i] == rest[i]);
        assert(forall|i: int| #![trigger rest[i]] 0 <= i < last ==> nodes[i] == rest[i]);
        let before = render_names(rest);
        if is_render_name(nodes.last().name@) {
            let all = before.push(nodes.last().name@);
            assert(all[before.len() as int] == nodes.last().name@);
            if before.contains(name) {
                let k = choose|k: int| 0 <= k < before.len() && before[k] == name;
                assert(all[k] == name);
            }
            if all.contains(name) {
                let k = choose|k: int| 0 <= k < all.len() && all[k] == name;
                if k < before.len() {
                    assert(before[k] == name);
                }
            }
        }
    }
}

/// The first node with a name speaks for it.
pub proof fn first_node_speaks(nodes: Seq<DeviceNode>, name: Seq<char>, i: int)
    requires
        0 <= i <= nodes.len(),
        forall|j: int| 0 <= j < i ==> (#[trigger] nodes[j]).name@ != name,
        i < nodes.len() ==> nodes[i].name@ == name,
    ensures
        i == nodes.len() ==> uevent_of(nodes, name) is None,
        i < nodes.len() && nodes[i].uevent is None ==> uevent_of(nodes, name) is None,
        i < nodes.len() && nodes[i].uevent is Some ==> uevent_of(nodes, name) == Some(
            nodes[i].uevent->0@,
        ),
    decreases nodes.len(),
{
    if nodes.len() > 0 && i > 0 {
        assert(nodes[0].name@ != name);
        let rest = nodes.skip(1);
        assert(forall|j: int| #![trigger rest[j]] 0 <= j < rest.len() ==> rest[j] == nodes[j + 1]);
        first_node_speaks(rest, name, i - 1);
    }
}

/// A node fits by its name, or where what the kernel says holds what is wanted
/// at some place.
pub proof fn fitting_is_by_name_or_words(
    name: Seq<char>,
    wanted: Seq<char>,
    said: Seq<char>,
    sought: Seq<char>,
)
    ensures
        fits(name, wanted, said, sought) <==> name == wanted || exists|i: int|
            0 <= i <= said.len() - sought.len() && #[trigger] said.subrange(i, i + sought.len()) == sought,
{
    markup::found_where_it_stands(said, sought);
}

/// The node that is picked for what is wanted is the first of which the kernel
/// says something and that fits; there is none only where none fits.
pub proof fn first_that_fits(names: Seq<Seq<char>>, nodes: Seq<DeviceNode>, wanted: Seq<char>)
    ensures
        first_fitting(names, nodes, wanted) matches Some(n) ==> exists|i: int|
            {
                &&& 0 <= i < names.len()
                &&& #[trigger] names[i] == n
                &&& fitting(names[i], nodes, wanted)
                &&& forall|j: int|
                    #![trigger names[j]]
                    0 <= j < i ==> !fitting(names[j], nodes, wanted)
            },
        first_fitting(names, nodes, wanted) is None ==> forall|j: int|
            #![trigger names[j]]
            0 <= j < names.len() ==> !fitting(names[j], nodes, wanted),
    decreases names.len(),
{
    if names.len() > 0 {
        let rest = names.drop_last();
        let last = names.len() - 1;
        first_that_fits(rest, nodes, wanted);
        assert(forall|j: int| #![trigger names[j]] 0 <= j < last ==> names[j] == rest[j]);
        assert(names[last] == names.last());
        if let Some(n) = first_fitting(rest, nodes, wanted) {
            let i = choose|i: int|
                {
                    &&& 0 <= i < rest.len()
                    &&& #[trigger] rest[i] == n
                    &&& fitting(rest[i], nodes, wanted)
                    &&& forall|j: int|
                        #![trigger rest[j]]
                        0 <= j < i ==> !fitting(rest[j], nodes, wanted)
                };
            assert(names[i] == n);
        }
    }
}

/// The kernel says something of the node, and it is the one that is wanted by
/// its name, or what is said holds what is wanted in either case of letters.
pub open spec fn fitting(name: Seq<char>, nodes: Seq<DeviceNode>, wanted: Seq<char>) -> bool {
    &&& uevent_of(nodes, name) is Some
    &&& name == wanted || markup::occurs(lowered(uevent_of(nodes, name)->0), lowered(wanted))
}

/// A device by NVIDIA is better suited than one by AMD, and that one better
/// than all others, which are suited alike.
pub proof fn makers_are_ranked(nvidia: Seq<char>, amd: Seq<char>, other: Seq<char>, another: Seq<char>)
    requires
        markup::occurs(nvidia, "PCI_ID=10DE"@),
        markup::occurs(amd, "PCI_ID=1002"@) && !markup::occurs(amd, "PCI_ID=10DE"@),
        !markup::occurs(other, "PCI_ID=1002"@) && !markup::occurs(other, "PCI_ID=10DE"@),
        !markup::occurs(another, "PCI_ID=1002"@) && !markup::occurs(another, "PCI_ID=10DE"@),
    ensures
        score_of(Some(nvidia)) > score_of(Some(amd)) > score_of(Some(other)),
        score_of(Some(other)) == score_of(Some(another)) == score_of(None),
        score_of(Some(nvidia)) == 100,
        score_of(Some(amd)) == 50,
        score_of(None) == 0,
{
}

/// Of the devices that are suited best the first is taken.
pub proof fn first_of_the_best(names: Seq<Seq<char>>, nodes: Seq<DeviceNode>, i: int)
    requires
        0 <= i < best_of(names, nodes),
    ensures
        score_of(uevent_of(nodes, names[i])) < score_of(
            uevent_of(nodes, names[best_of(names, nodes)]),
        ),
    decreases names.len(),
{
    if names.len() > 1 {
        let rest = names.drop_last();
        best_is_best(rest, nodes);
        let best = best_of(rest, nodes);
        assert(rest[best] == names[best]);
        if best_of(names, nodes) == best {
            first_of_the_best(rest, nodes, i);
            assert(rest[i] == names[i]);
        } else {
            assert(rest[i] == names[i]);
            assert(names[names.len() - 1] == names.last());
        }
    }
}

/// The environment decides before all; a configured path is taken where it is
/// there; a configured device where it is found; and where nothing is
/// configured, the best suited device that renders is taken.
pub proof fn nodes_are_resolved(
    environment: Option<Seq<char>>,
    configured: Option<Seq<char>>,
    exists_there: bool,
    dri: DriListing,
    found: Vec<DeviceNode>,
)
    ensures
        environment matches Some(e) ==> node_of(environment, configured, exists_there, dri) == Ok::<
            Seq<char>,
            Seq<char>,
        >(e),
        environment is None && !(dri is Nodes) ==> node_of(environment, configured, exists_there, dri) is Err,
        environment is None && dri == DriListing::Nodes(found) ==> {
            let names = ordered_names(found@);
            let node = node_of(environment, configured, exists_there, dri);
            &&& names.len() == 0 ==> node is Err
            &&& names.len() > 0 && configured is None ==> node == Ok::<Seq<char>, Seq<char>>(
                "/dev/dri/"@ + names[best_of(names, found@)],
            )
            &&& names.len() > 0 ==> (configured matches Some(wanted) ==> {
                let path = wanted.len() > 0 && wanted[0] == '/';
                let picked = first_fitting(names, found@, wanted);
                &&& path && exists_there ==> node == Ok::<Seq<char>, Seq<char>>(wanted)
                &&& path && !exists_there ==> node is Err
                &&& !path && picked is Some ==> node == Ok::<Seq<char>, Seq<char>>(
                    "/dev/dri/"@ + picked->0,
                )
                &&& !path && picked is None ==> node is Err
            })
        },
{
}

/// A device is called by what stands behind `DRIVER=` in the first line that
/// begins so, and by its node where no line does or the kernel says nothing.
pub proof fn drivers_give_names(said: Seq<char>, node: Seq<char>, i: int)
    requires
        ({
            let pieces = text::split_on(said, '\n');
            &&& 0 <= i <= pieces.len()
            &&& i < pieces.len() ==> common::begins(line_of(pieces, i), "DRIVER="@)
            &&& forall|j: int|
                0 <= j < i ==> !common::begins(#[trigger] line_of(pieces, j), "DRIVER="@)
        }),
    ensures
        ({
            let pieces = text::split_on(said, '\n');
            device_name(Some(said), node) == if i < pieces.len() {
                line_of(pieces, i).skip(7)
            } else {
                node
            }
        }),
        device_name(None, node) == node,
{
    reveal_strlit("DRIVER=");
    assert("DRIVER="@.len() == 7);
    driver_is_named_first(text::split_on(said, '\n'), 0, i);
}

/// The first line that names the driver is found from any place before it.
proof fn driver_is_named_first(pieces: Seq<Seq<char>>, from: int, i: int)
    requires
        0 <= from <= i <= pieces.len(),
        "DRIVER="@.len() == 7,
        i < pieces.len() ==> common::begins(line_of(pieces, i), "DRIVER="@),
        forall|j: int| from <= j < i ==> !common::begins(#[trigger] line_of(pieces, j), "DRIVER="@),
    ensures
        driver_line(pieces, from) == if i < pieces.len() {
            Some(line_of(pieces, i).skip(7))
        } else {
            None
        },
    decreases pieces.len() - from,
{
    if from < pieces.len() {
        let line = line_of(pieces, from);
        if text::has_prefix(line, "DRIVER="@) {
            assert forall|k: int| 0 <= k < 7 implies #[trigger] line[k] == "DRIVER="@[k] by {
                assert(line.take(7)[k] == line[k]);
            }
            assert(common::begins(line, "DRIVER="@));
        } else {
            if common::begins(line, "DRIVER="@) {
                assert(line.take(7) == "DRIVER="@);
            }
            driver_is_named_first(pieces, from + 1, i);
        }
    }
}

} // verus!
