//! Interface identities: the 128-bit identifiers by which a caller names the
//! interface it asks an object for.

use vstd::prelude::*;

verus! {

/// A globally unique identifier, in the layout of the binary interface.
#[derive(Clone, Copy, Debug)]
pub struct Guid {
    pub data1: u32,
    pub data2: u16,
    pub data3: u16,
    pub data4: [u8; 8],
}

impl View for Guid {
    type V = (u32, u16, u16, Seq<u8>);

    open spec fn view(&self) -> (u32, u16, u16, Seq<u8>) {
        (self.data1, self.data2, self.data3, self.data4@)
    }
}

/// Whether two identifiers are the same, field by field.
pub fn is_equal_guid(a: &Guid, b: &Guid) -> (same: bool)
    ensures
        same == (a@ == b@),
{
    let same = a.data1 == b.data1 && a.data2 == b.data2 && a.data3 == b.data3 && a.data4[0]
        == b.data4[0] && a.data4[1] == b.data4[1] && a.data4[2] == b.data4[2] && a.data4[3]
        == b.data4[3] && a.data4[4] == b.data4[4] && a.data4[5] == b.data4[5] && a.data4[6]
        == b.data4[6] && a.data4[7] == b.data4[7];
    proof {
        if same {
            assert(a.data4@ =~= b.data4@);
        } else if a.data1 == b.data1 && a.data2 == b.data2 && a.data3 == b.data3 {
            assert(exists|k: int| 0 <= k < 8 && a.data4@[k] != b.data4@[k]);
        }
    }
    same
}

/// The interfaces that the hosting objects and the hosted control speak.
#[derive(Clone, Copy, Debug, PartialEq, Eq, Structural)]
pub enum Interface {
    Unknown,
    Stream,
    OleObject,
    OleInPlaceObject,
    OleWindow,
    OleInPlaceUiWindow,
    OleInPlaceFrame,
    OleClientSite,
    OleInPlaceSite,
    Dispatch,
    WebBrowser,
    WebBrowserApp,
    WebBrowser2,
    PersistStreamInit,
    DocHostUiHandler,
    HtmlDocument,
    HtmlDocument2,
}

/// The last eight bytes of the identifiers that the system assigned from its
/// own range.
pub open spec fn system_tail() -> Seq<u8> {
    seq![0xc0u8, 0x00u8, 0x00u8, 0x00u8, 0x00u8, 0x00u8, 0x00u8, 0x46u8]
}

impl Interface {
    /// The place of the interface in the declaration above.
    pub open spec fn position(self) -> int {
        match self {
            Interface::Unknown => 0,
            Interface::Stream => 1,
            Interface::OleObject => 2,
            Interface::OleInPlaceObject => 3,
            Interface::OleWindow => 4,
            Interface::OleInPlaceUiWindow => 5,
            Interface::OleInPlaceFrame => 6,
            Interface::OleClientSite => 7,
            Interface::OleInPlaceSite => 8,
            Interface::Dispatch => 9,
            Interface::WebBrowser => 10,
            Interface::WebBrowserApp => 11,
            Interface::WebBrowser2 => 12,
            Interface::PersistStreamInit => 13,
            Interface::DocHostUiHandler => 14,
            Interface::HtmlDocument => 15,
            Interface::HtmlDocument2 => 16,
        }
    }

    /// The identifier of the interface.
    pub open spec fn spec_iid(self) -> (u32, u16, u16, Seq<u8>) {
        match self {
            Interface::Unknown => (0x00000000u32, 0x0000u16, 0x0000u16, system_tail()),
            Interface::Stream => (0x0000000cu32, 0x0000u16, 0x0000u16, system_tail()),
            Interface::OleObject => (0x00000112u32, 0x0000u16, 0x0000u16, system_tail()),
            Interface::OleInPlaceObject => (0x00000113u32, 0x0000u16, 0x0000u16, system_tail()),
            Interface::OleWindow => (0x00000114u32, 0x0000u16, 0x0000u16, system_tail()),
            Interface::OleInPlaceUiWindow => (0x00000115u32, 0x0000u16, 0x0000u16, system_tail()),
            Interface::OleInPlaceFrame => (0x00000116u32, 0x0000u16, 0x0000u16, system_tail()),
            Interface::OleClientSite => (0x00000118u32, 0x0000u16, 0x0000u16, system_tail()),
            Interface::OleInPlaceSite => (0x00000119u32, 0x0000u16, 0x0000u16, system_tail()),
            Interface::Dispatch => (0x00020400u32, 0x0000u16, 0x0000u16, system_tail()),
            Interface::WebBrowser => (
                0xeab22ac1u32,
                0x30c1u16,
                0x11cfu16,
                seq![0xa7u8, 0xebu8, 0x00u8, 0x00u8, 0xc0u8, 0x5bu8, 0xaeu8, 0x0bu8],
            ),
            Interface::WebBrowserApp => (0x0002df05u32, 0x0000u16, 0x0000u16, system_tail()),
            Interface::WebBrowser2 => (
                0xd30c1661u32,
                0xcdafu16,
                0x11d0u16,
                seq![0x8au8, 0x3eu8, 0x00u8, 0xc0u8, 0x4fu8, 0xc9u8, 0xe2u8, 0x6eu8],
            ),
            Interface::PersistStreamInit => (
                0x7fd52380u32,
                0x4e07u16,
                0x101bu16,
                seq![0xaeu8, 0x2du8, 0x08u8, 0x00u8, 0x2bu8, 0x2eu8, 0xc7u8, 0x13u8],
            ),
            Interface::DocHostUiHandler => (
                0xbd3f23c0u32,
                0xd43eu16,
                0x11cfu16,
                seq![0x89u8, 0x3bu8, 0x00u8, 0xaau8, 0x00u8, 0xbdu8, 0xceu8, 0x1au8],
            ),
            Interface::HtmlDocument => (
                0x626fc520u32,
                0xa41eu16,
                0x11cfu16,
                seq![0xa7u8, 0x31u8, 0x00u8, 0xa0u8, 0xc9u8, 0x08u8, 0x26u8, 0x37u8],
            ),
            Interface::HtmlDocument2 => (
                0x332c4425u32,
                0x26cbu16,
                0x11d0u16,
                seq![0xb4u8, 0x83u8, 0x00u8, 0xc0u8, 0x4fu8, 0xd9u8, 0x01u8, 0x19u8],
            ),
        }
    }

    /// The interface that `iid` identifies, if it is one of those above.
    pub open spec fn spec_from_iid(iid: (u32, u16, u16, Seq<u8>)) -> Option<Interface> {
        if exists|i: Interface| i.spec_iid() == iid {
            Some(choose|i: Interface| i.spec_iid() == iid)
        } else {
            None
        }
    }

    /// The identifier of the interface.
    pub fn iid(self) -> (iid: Guid)
        ensures
            iid@ == self.spec_iid(),
    {
        let system: [u8; 8] = [0xc0, 0x00, 0x00, 0x00, 0x00, 0x00, 0x00, 0x46];
        let iid = match self {
            Interface::Unknown => Guid { data1: 0x00000000, data2: 0, data3: 0, data4: system },
            Interface::Stream => Guid { data1: 0x0000000c, data2: 0, data3: 0, data4: system },
            Interface::OleObject => Guid { data1: 0x00000112, data2: 0, data3: 0, data4: system },
            Interface::OleInPlaceObject => Guid {
                data1: 0x00000113,
                data2: 0,
                data3: 0,
                data4: system,
            },
            Interface::OleWindow => Guid { data1: 0x00000114, data2: 0, data3: 0, data4: system },
            Interface::OleInPlaceUiWindow => Guid {
                data1: 0x00000115,
                data2: 0,
                data3: 0,
                data4: system,
            },
            Interface::OleInPlaceFrame => Guid {
                data1: 0x00000116,
                data2: 0,
                data3: 0,
                data4: system,
            },
            Interface::OleClientSite => Guid {
                data1: 0x00000118,
                data2: 0,
                data3: 0,
                data4: system,
            },
            Interface::OleInPlaceSite => Guid {
                data1: 0x00000119,
                data2: 0,
                data3: 0,
                data4: system,
            },
            Interface::Dispatch => Guid { data1: 0x00020400, data2: 0, data3: 0, data4: system },
            Interface::WebBrowser => Guid {
                data1: 0xeab22ac1,
                data2: 0x30c1,
                data3: 0x11cf,
                data4: [0xa7, 0xeb, 0x00, 0x00, 0xc0, 0x5b, 0xae, 0x0b],
            },
            Interface::WebBrowserApp => Guid {
                data1: 0x0002df05,
                data2: 0,
                data3: 0,
                data4: system,
            },
            Interface::WebBrowser2 => Guid {
                data1: 0xd30c1661,
                data2: 0xcdaf,
                data3: 0x11d0,
                data4: [0x8a, 0x3e, 0x00, 0xc0, 0x4f, 0xc9, 0xe2, 0x6e],
            },
            Interface::PersistStreamInit => Guid {
                data1: 0x7fd52380,
                data2: 0x4e07,
                data3: 0x101b,
                data4: [0xae, 0x2d, 0x08, 0x00, 0x2b, 0x2e, 0xc7, 0x13],
            },
            Interface::DocHostUiHandler => Guid {
                data1: 0xbd3f23c0,
                data2: 0xd43e,
                data3: 0x11cf,
                data4: [0x89, 0x3b, 0x00, 0xaa, 0x00, 0xbd, 0xce, 0x1a],
            },
            Interface::HtmlDocument => Guid {
                data1: 0x626fc520,
                data2: 0xa41e,
                data3: 0x11cf,
                data4: [0xa7, 0x31, 0x00, 0xa0, 0xc9, 0x08, 0x26, 0x37],
            },
            Interface::HtmlDocument2 => Guid {
                data1: 0x332c4425,
                data2: 0x26cb,
                data3: 0x11d0,
                data4: [0xb4, 0x83, 0x00, 0xc0, 0x4f, 0xd9, 0x01, 0x19],
            },
        };
        assert(iid.data4@ =~= self.spec_iid().3);
        iid
    }

    /// The interface that `iid` identifies; `None` for any other identifier.
    pub fn from_iid(iid: &Guid) -> (interface: Option<Interface>)
        ensures
            interface == Interface::spec_from_iid(iid@),
            match interface {
                Some(i) => i.spec_iid() == iid@,
                None => forall|i: Interface| i.spec_iid() != iid@,
            },
    {
        let all: [Interface; 17] = [
            Interface::Unknown,
            Interface::Stream,
            Interface::OleObject,
            Interface::OleInPlaceObject,
            Interface::OleWindow,
            Interface::OleInPlaceUiWindow,
            Interface::OleInPlaceFrame,
            Interface::OleClientSite,
            Interface::OleInPlaceSite,
            Interface::Dispatch,
            Interface::WebBrowser,
            Interface::WebBrowserApp,
            Interface::WebBrowser2,
            Interface::PersistStreamInit,
            Interface::DocHostUiHandler,
            Interface::HtmlDocument,
            Interface::HtmlDocument2,
        ];
        let mut k: usize = 0;
        while k < 17
            invariant
                k <= 17,
                all@.len() == 17,
                forall|i: Interface| all@[#[trigger] i.position()] == i,
                forall|j: int| 0 <= j < k ==> (#[trigger] all@[j]).spec_iid() != iid@,
            decreases 17 - k,
        {
            let candidate = all[k];
            if is_equal_guid(iid, &candidate.iid()) {
                proof {
                    lemma_iids_distinct(candidate, choose|i: Interface| i.spec_iid() == iid@);
                }
                return Some(candidate);
            }
            k = k + 1;
        }
        assert forall|i: Interface| i.spec_iid() != iid@ by {
            assert(all@[i.position()].spec_iid() != iid@);
        }
        None
    }
}

/// No two interfaces share an identifier.
pub proof fn lemma_iids_distinct(a: Interface, b: Interface)
    requires
        a.spec_iid() == b.spec_iid(),
    ensures
        a == b,
{
    let tail = system_tail();
    assert(tail[0] == 0xc0u8);
    assert(a.spec_iid().3[0] == b.spec_iid().3[0]);
}

/// An interface is found again by its own identifier.
pub proof fn lemma_from_iid_of_iid(interface: Interface)
    ensures
        Interface::spec_from_iid(interface.spec_iid()) == Some(interface),
{
    let found = choose|i: Interface| i.spec_iid() == interface.spec_iid();
    lemma_iids_distinct(found, interface);
}

} // verus!
