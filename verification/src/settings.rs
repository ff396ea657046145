//! User settings: the addresses of the core systems, the identity of this
//! system, and the column width of printed reports. Every field is
//! optional; a partial update overwrites exactly the fields it carries.

use vstd::prelude::*;

use crate::text::dec_str;
use crate::value::{field_nodes, Node, Value};

verus! {

/// The persisted user settings.
pub struct Settings {
    pub service_registry_address: Option<String>,
    pub authorization_address: Option<String>,
    pub orchestrator_address: Option<String>,
    pub system_name: Option<String>,
    pub system_address: Option<String>,
    pub system_port: Option<u32>,
    pub system_authentication_info: Option<String>,
    pub column_width: Option<usize>,
}

/// An exact copy of an optional text.
pub fn clone_opt_string(o: &Option<String>) -> (r: Option<String>)
    ensures
        r == *o,
{
    match o {
        Some(s) => Some(s.clone()),
        None => None,
    }
}

impl Clone for Settings {
    /// An exact copy.
    fn clone(&self) -> (r: Self)
        ensures
            r == *self,
    {
        Settings {
            service_registry_address: clone_opt_string(&self.service_registry_address),
            authorization_address: clone_opt_string(&self.authorization_address),
            orchestrator_address: clone_opt_string(&self.orchestrator_address),
            system_name: clone_opt_string(&self.system_name),
            system_address: clone_opt_string(&self.system_address),
            system_port: self.system_port,
            system_authentication_info: clone_opt_string(&self.system_authentication_info),
            column_width: self.column_width,
        }
    }
}

impl Default for Settings {
    /// Settings with nothing set.
    fn default() -> (r: Self)
        ensures
            r.service_registry_address is None,
            r.authorization_address is None,
            r.orchestrator_address is None,
            r.system_name is None,
            r.system_address is None,
            r.system_port is None,
            r.system_authentication_info is None,
            r.column_width is None,
    {
        Settings {
            service_registry_address: None,
            authorization_address: None,
            orchestrator_address: None,
            system_name: None,
            system_address: None,
            system_port: None,
            system_authentication_info: None,
            column_width: None,
        }
    }
}

/// The merge of a partial update `u` into settings `b`: for every field
/// independently, the update's field when the update carries one, the
/// stored field otherwise.
pub open spec fn spec_merge(b: Settings, u: Settings) -> Settings {
    Settings {
        service_registry_address: if u.service_registry_address is Some {
            u.service_registry_address
        } else {
            b.service_registry_address
        },
        authorization_address: if u.authorization_address is Some {
            u.authorization_address
        } else {
            b.authorization_address
        },
        orchestrator_address: if u.orchestrator_address is Some {
            u.orchestrator_address
        } else {
            b.orchestrator_address
        },
        system_name: if u.system_name is Some {
            u.system_name
        } else {
            b.system_name
        },
        system_address: if u.system_address is Some {
            u.system_address
        } else {
            b.system_address
        },
        system_port: if u.system_port is Some {
            u.system_port
        } else {
            b.system_port
        },
        system_authentication_info: if u.system_authentication_info is Some {
            u.system_authentication_info
        } else {
            b.system_authentication_info
        },
        column_width: if u.column_width is Some {
            u.column_width
        } else {
            b.column_width
        },
    }
}

impl Settings {
    /// Merge a partial update into these settings: for every field
    /// independently, the merged field is the update's field when the
    /// update carries one and the stored field otherwise.
    pub fn merge(self, settings: Settings) -> (r: Self)
        ensures
            r == spec_merge(self, settings),
            r.service_registry_address == (if settings.service_registry_address is Some {
                settings.service_registry_address
            } else {
                self.service_registry_address
            }),
            r.authorization_address == (if settings.authorization_address is Some {
                settings.authorization_address
            } else {
                self.authorization_address
            }),
            r.orchestrator_address == (if settings.orchestrator_address is Some {
                settings.orchestrator_address
            } else {
                self.orchestrator_address
            }),
            r.system_name == (if settings.system_name is Some {
                settings.system_name
            } else {
                self.system_name
            }),
            r.system_address == (if settings.system_address is Some {
                settings.system_address
            } else {
                self.system_address
            }),
            r.system_port == (if settings.system_port is Some {
                settings.system_port
            } else {
                self.system_port
            }),
            r.system_authentication_info == (if settings.system_authentication_info is Some {
                settings.system_authentication_info
            } else {
                self.system_authentication_info
            }),
            r.column_width == (if settings.column_width is Some {
                settings.column_width
            } else {
                self.column_width
            }),
    {
        Settings {
            service_registry_address: or_opt(
                settings.service_registry_address,
                self.service_registry_address,
            ),
            authorization_address: or_opt(
                settings.authorization_address,
                self.authorization_address,
            ),
            orchestrator_address: or_opt(settings.orchestrator_address, self.orchestrator_address),
            system_name: or_opt(settings.system_name, self.system_name),
            system_address: or_opt(settings.system_address, self.system_address),
            system_port: or_opt(settings.system_port, self.system_port),
            system_authentication_info: or_opt(
                settings.system_authentication_info,
                self.system_authentication_info,
            ),
            column_width: or_opt(settings.column_width, self.column_width),
        }
    }

    /// The column width reports are printed at: the configured one, or 25
    /// while none is configured.
    pub fn effective_column_width(&self) -> (r: usize)
        ensures
            r == (match self.column_width {
                Some(w) => w,
                None => 25usize,
            }),
    {
        match self.column_width {
            Some(w) => w,
            None => 25,
        }
    }

    /// The shape these settings print as: a record of all eight fields in
    /// declared order, a missing field shown as the empty marker.
    pub open spec fn node(self) -> Node {
        Node::Record(
            seq![
                ("serviceRegistryAddress"@, opt_text_node(self.service_registry_address)),
                ("authorizationAddress"@, opt_text_node(self.authorization_address)),
                ("orchestratorAddress"@, opt_text_node(self.orchestrator_address)),
                ("systemName"@, opt_text_node(self.system_name)),
                ("systemAddress"@, opt_text_node(self.system_address)),
                ("systemPort"@, opt_num_node(self.system_port)),
                ("systemAuthenticationInfo"@, opt_text_node(self.system_authentication_info)),
                ("columnWidth"@, opt_width_node(self.column_width)),
            ],
        )
    }

    /// Present these settings as a printable value.
    pub fn to_value(&self) -> (r: Value)
        ensures
            r@ == self.node(),
    {
        let mut fields: Vec<(String, Value)> = Vec::new();
        fields.push(
            (
                String::from_str("serviceRegistryAddress"),
                opt_text_value(&self.service_registry_address),
            ),
        );
        fields.push(
            (String::from_str("authorizationAddress"), opt_text_value(&self.authorization_address)),
        );
        fields.push(
            (String::from_str("orchestratorAddress"), opt_text_value(&self.orchestrator_address)),
        );
        fields.push((String::from_str("systemName"), opt_text_value(&self.system_name)));
        fields.push((String::from_str("systemAddress"), opt_text_value(&self.system_address)));
        fields.push((String::from_str("systemPort"), opt_u32_value(&self.system_port)));
        fields.push(
            (
                String::from_str("systemAuthenticationInfo"),
                opt_text_value(&self.system_authentication_info),
            ),
        );
        fields.push((String::from_str("columnWidth"), opt_usize_value(&self.column_width)));
        let ghost fs = fields@;
        let r = Value::Record(fields);
        proof {
            assert(fs.len() == 8);
            assert forall|i: int| 0 <= i < 8 implies #[trigger] field_nodes(fs, 8)[i]
                == self.node()->Record_0[i] by {
                crate::value::lemma_field_nodes_index(fs, 8, i);
                assert(crate::value::field_node(fs[i]) == (fs[i].0@, fs[i].1@));
            }
            crate::value::lemma_field_nodes_len(fs, 8);
            assert(field_nodes(fs, 8) =~= self.node()->Record_0);
        }
        r
    }
}

/// The first option when it carries a value, the second otherwise.
fn or_opt<T>(first: Option<T>, second: Option<T>) -> (r: Option<T>)
    ensures
        r == (if first is Some {
            first
        } else {
            second
        }),
{
    match first {
        Some(v) => Some(v),
        None => second,
    }
}

/// The shape an optional text field prints as.
pub open spec fn opt_text_node(o: Option<String>) -> Node {
    match o {
        Some(t) => Node::Present(Box::new(Node::Scalar(t@))),
        None => Node::Absent,
    }
}

/// The shape an optional number field prints as.
pub open spec fn opt_num_node(o: Option<u32>) -> Node {
    match o {
        Some(n) => Node::Present(Box::new(Node::Scalar(dec_str(n as nat)))),
        None => Node::Absent,
    }
}

/// The shape an optional width field prints as.
pub open spec fn opt_width_node(o: Option<usize>) -> Node {
    match o {
        Some(n) => Node::Present(Box::new(Node::Scalar(dec_str(n as nat)))),
        None => Node::Absent,
    }
}

/// Present an optional text as a printable value.
pub fn opt_text_value(o: &Option<String>) -> (r: Value)
    ensures
        r@ == opt_text_node(*o),
{
    match o {
        Some(s) => {
            let inner = Value::Scalar(s.clone());
            proof {
                assert(inner@ == Node::Scalar(s@));
            }
            Value::Present(Box::new(inner))
        },
        None => Value::Absent,
    }
}

/// Present an optional number as a printable value.
pub fn opt_u32_value(o: &Option<u32>) -> (r: Value)
    ensures
        r@ == opt_num_node(*o),
{
    match o {
        Some(n) => {
            let inner = Value::Scalar(crate::text::u32_to_string(*n));
            proof {
                assert(inner@ == Node::Scalar(dec_str(*n as nat)));
            }
            Value::Present(Box::new(inner))
        },
        None => Value::Absent,
    }
}

/// Present an optional width as a printable value.
pub fn opt_usize_value(o: &Option<usize>) -> (r: Value)
    ensures
        r@ == opt_width_node(*o),
{
    match o {
        Some(n) => {
            let inner = Value::Scalar(crate::text::usize_to_string(*n));
            proof {
                assert(inner@ == Node::Scalar(dec_str(*n as nat)));
            }
            Value::Present(Box::new(inner))
        },
        None => Value::Absent,
    }
}

} // verus!
