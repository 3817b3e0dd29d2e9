//! The per-field attribute parser and validator.
//!
//! A field of the state definition may carry markers: `publish` (optionally
//! with a nested `pub_setter` request for a public mutator), `getter`
//! (optionally `= "name"`), and `setter` (optionally `= "name"`).  The
//! parser folds a field's markers, in order, into one [`ControllerAttrs`]
//! record, or stops at the first offending marker with an error naming it.
//! The markers are consumed here; the field is afterwards re-emitted as an
//! ordinary field of the owning type.

use vstd::prelude::*;

use crate::errors::Error;
use crate::errors::ErrorV;
use crate::names::check_identifier;
use crate::names::is_identifier;
use crate::names::publish_setter_name;
use crate::names::spec_publish_setter_name;

verus! {

/// One surface marker on one field: its name, an optional `= "..."`
/// argument, and the arguments of an optional parenthesized list.
#[derive(Debug)]
pub struct Marker {
    pub name: String,
    pub eq_arg: Option<String>,
    pub paren_args: Vec<String>,
}

/// The mathematical shadow of [`Marker`].
pub ghost struct MarkerV {
    pub name: Seq<char>,
    pub eq_arg: Option<Seq<char>>,
    pub paren_args: Seq<Seq<char>>,
}

impl View for Marker {
    type V = MarkerV;

    open spec fn view(&self) -> MarkerV {
        MarkerV {
            name: self.name@,
            eq_arg: match self.eq_arg {
                Option::Some(s) => Option::Some(s@),
                Option::None => Option::None,
            },
            paren_args: self.paren_args.deep_view(),
        }
    }
}

impl DeepView for Marker {
    type V = MarkerV;

    open spec fn deep_view(&self) -> MarkerV {
        self.view()
    }
}

/// What one field declared: whether its changes are published, whether a
/// public mutator was requested alongside, and the names of its accessors,
/// if any were asked for.
#[derive(Debug)]
pub struct ControllerAttrs {
    pub publish: bool,
    pub pub_setter: bool,
    pub getter_name: Option<String>,
    pub setter_name: Option<String>,
}

/// The mathematical shadow of [`ControllerAttrs`].
pub ghost struct AttrsV {
    pub publish: bool,
    pub pub_setter: bool,
    pub getter_name: Option<Seq<char>>,
    pub setter_name: Option<Seq<char>>,
}

impl View for ControllerAttrs {
    type V = AttrsV;

    open spec fn view(&self) -> AttrsV {
        AttrsV {
            publish: self.publish,
            pub_setter: self.pub_setter,
            getter_name: match self.getter_name {
                Option::Some(s) => Option::Some(s@),
                Option::None => Option::None,
            },
            setter_name: match self.setter_name {
                Option::Some(s) => Option::Some(s@),
                Option::None => Option::None,
            },
        }
    }
}

/// A field that carries no markers at all.
pub open spec fn empty_attrs() -> AttrsV {
    AttrsV { publish: false, pub_setter: false, getter_name: None, setter_name: None }
}

/// The first argument of a `publish(...)` list that is not `pub_setter`,
/// if any.
pub open spec fn first_bad_publish_arg(args: Seq<Seq<char>>) -> Option<Seq<char>>
    decreases args.len(),
{
    if args.len() == 0 {
        None
    } else if args[0] != "pub_setter"@ {
        Some(args[0])
    } else {
        first_bad_publish_arg(args.drop_first())
    }
}

/// How one marker refines the attributes gathered so far, or fails:
/// `publish` takes no `=` argument and only `pub_setter` in its list;
/// `getter` and `setter` take no list, and their `=` argument, if given,
/// must be a valid identifier; a bare `getter` defaults to the field's
/// name, a bare `setter` to `set_{field}`; any other marker is rejected
/// by name.
pub open spec fn apply_marker(a: AttrsV, m: MarkerV, field_name: Seq<char>) -> Result<
    AttrsV,
    ErrorV,
> {
    if m.name == "publish"@ {
        if m.eq_arg is Some {
            Err(ErrorV::MalformedMarker { marker: m.name })
        } else {
            match first_bad_publish_arg(m.paren_args) {
                Some(bad) => Err(ErrorV::UnknownPublishArg { found: bad }),
                None => Ok(
                    AttrsV {
                        publish: true,
                        pub_setter: a.pub_setter || m.paren_args.len() > 0,
                        getter_name: a.getter_name,
                        setter_name: a.setter_name,
                    },
                ),
            }
        }
    } else if m.name == "getter"@ {
        if m.paren_args.len() > 0 {
            Err(ErrorV::MalformedMarker { marker: m.name })
        } else {
            match m.eq_arg {
                Some(g) => if is_identifier(g) {
                    Ok(
                        AttrsV {
                            publish: a.publish,
                            pub_setter: a.pub_setter,
                            getter_name: Some(g),
                            setter_name: a.setter_name,
                        },
                    )
                } else {
                    Err(ErrorV::InvalidIdent { found: g })
                },
                None => Ok(
                    AttrsV {
                        publish: a.publish,
                        pub_setter: a.pub_setter,
                        getter_name: Some(field_name),
                        setter_name: a.setter_name,
                    },
                ),
            }
        }
    } else if m.name == "setter"@ {
        if m.paren_args.len() > 0 {
            Err(ErrorV::MalformedMarker { marker: m.name })
        } else {
            match m.eq_arg {
                Some(s) => if is_identifier(s) {
                    Ok(
                        AttrsV {
                            publish: a.publish,
                            pub_setter: a.pub_setter,
                            getter_name: a.getter_name,
                            setter_name: Some(s),
                        },
                    )
                } else {
                    Err(ErrorV::InvalidIdent { found: s })
                },
                None => Ok(
                    AttrsV {
                        publish: a.publish,
                        pub_setter: a.pub_setter,
                        getter_name: a.getter_name,
                        setter_name: Some(spec_publish_setter_name(field_name)),
                    },
                ),
            }
        }
    } else {
        Err(ErrorV::UnknownMarker { found: m.name })
    }
}

/// The markers of one field folded left to right, stopping at the first
/// offender.
pub open spec fn apply_markers(a: AttrsV, ms: Seq<MarkerV>, field_name: Seq<char>) -> Result<
    AttrsV,
    ErrorV,
>
    decreases ms.len(),
{
    if ms.len() == 0 {
        Ok(a)
    } else {
        match apply_marker(a, ms[0], field_name) {
            Ok(a2) => apply_markers(a2, ms.drop_first(), field_name),
            Err(e) => Err(e),
        }
    }
}

/// What parsing a whole marker list yields, starting from a bare field.
pub open spec fn spec_parse_attrs(ms: Seq<MarkerV>, field_name: Seq<char>) -> Result<
    AttrsV,
    ErrorV,
> {
    apply_markers(empty_attrs(), ms, field_name)
}

/// Scans a `publish(...)` argument list for the first argument that is not
/// `pub_setter`, as [`first_bad_publish_arg`] describes.
fn find_bad_publish_arg(args: &Vec<String>) -> (r: Option<String>)
    ensures
        match r {
            Some(bad) => first_bad_publish_arg(args.deep_view()) == Some(bad@),
            None => first_bad_publish_arg(args.deep_view()) is None,
        },
{
    let pub_setter_lit = String::from_str("pub_setter");
    let k = args.len();
    proof {
        assert(args.deep_view().skip(0) =~= args.deep_view());
    }
    let mut j: usize = 0;
    while j < k
        invariant
            k == args.len(),
            j <= k,
            pub_setter_lit@ == "pub_setter"@,
            first_bad_publish_arg(args.deep_view().skip(j as int)) == first_bad_publish_arg(
                args.deep_view(),
            ),
        decreases k - j,
    {
        let arg = &args[j];
        proof {
            assert(args.deep_view().skip(j as int)[0] == arg@);
            assert(args.deep_view().skip(j as int).drop_first() =~= args.deep_view().skip(j + 1));
        }
        if !arg.eq(&pub_setter_lit) {
            return Some(arg.clone());
        }
        j += 1;
    }
    proof {
        assert(args.deep_view().skip(k as int) =~= Seq::<Seq<char>>::empty());
    }
    None
}

/// The view of an exec parse result.
pub open spec fn attrs_result_view(r: Result<ControllerAttrs, Error>) -> Result<AttrsV, ErrorV> {
    match r {
        Ok(a) => Ok(a@),
        Err(e) => Err(e@),
    }
}

/// Parses the markers of one field, left to right, as [`spec_parse_attrs`]
/// describes: the result is the gathered attributes, or the first error
/// with the offending name.
pub fn parse_controller_attrs(field_name: &str, markers: &Vec<Marker>) -> (r: Result<
    ControllerAttrs,
    Error,
>)
    ensures
        attrs_result_view(r) == spec_parse_attrs(markers.deep_view(), field_name@),
{
    let publish_lit = String::from_str("publish");
    let getter_lit = String::from_str("getter");
    let setter_lit = String::from_str("setter");
    let pub_setter_lit = String::from_str("pub_setter");
    let mut attrs = ControllerAttrs {
        publish: false,
        pub_setter: false,
        getter_name: None,
        setter_name: None,
    };
    let n = markers.len();
    proof {
        assert(markers.deep_view().skip(0) =~= markers.deep_view());
    }
    let mut i: usize = 0;
    while i < n
        invariant
            n == markers.len(),
            i <= n,
            publish_lit@ == "publish"@,
            getter_lit@ == "getter"@,
            setter_lit@ == "setter"@,
            pub_setter_lit@ == "pub_setter"@,
            apply_markers(attrs@, markers.deep_view().skip(i as int), field_name@)
                == spec_parse_attrs(markers.deep_view(), field_name@),
        decreases n - i,
    {
        let m = &markers[i];
        proof {
            assert(markers.deep_view().skip(i as int)[0] == m.deep_view());
            assert(markers.deep_view().skip(i as int).drop_first() =~= markers.deep_view().skip(
                i + 1,
            ));
        }
        let ghost pre = attrs@;
        if m.name.eq(&publish_lit) {
            if m.eq_arg.is_some() {
                return Err(Error::MalformedMarker { marker: m.name.clone() });
            }
            if let Some(bad) = find_bad_publish_arg(&m.paren_args) {
                return Err(Error::UnknownPublishArg { found: bad });
            }
            attrs.publish = true;
            if m.paren_args.len() > 0 {
                attrs.pub_setter = true;
            }
            proof {
                assert(apply_marker(pre, m@, field_name@) == Ok::<AttrsV, ErrorV>(attrs@));
            }
        } else if m.name.eq(&getter_lit) {
            if m.paren_args.len() > 0 {
                return Err(Error::MalformedMarker { marker: m.name.clone() });
            }
            match &m.eq_arg {
                Some(g) => {
                    if check_identifier(g.as_str()) {
                        attrs.getter_name = Some(g.clone());
                    } else {
                        return Err(Error::InvalidIdent { found: g.clone() });
                    }
                },
                None => {
                    attrs.getter_name = Some(String::from_str(field_name));
                },
            }
            proof {
                assert(apply_marker(pre, m@, field_name@) == Ok::<AttrsV, ErrorV>(attrs@));
            }
        } else if m.name.eq(&setter_lit) {
            if m.paren_args.len() > 0 {
                return Err(Error::MalformedMarker { marker: m.name.clone() });
            }
            match &m.eq_arg {
                Some(s) => {
                    if check_identifier(s.as_str()) {
                        attrs.setter_name = Some(s.clone());
                    } else {
                        return Err(Error::InvalidIdent { found: s.clone() });
                    }
                },
                None => {
                    attrs.setter_name = Some(publish_setter_name(field_name));
                },
            }
            proof {
                assert(apply_marker(pre, m@, field_name@) == Ok::<AttrsV, ErrorV>(attrs@));
            }
        } else {
            return Err(Error::UnknownMarker { found: m.name.clone() });
        }
        i += 1;
    }
    proof {
        assert(markers.deep_view().skip(n as int) =~= Seq::<MarkerV>::empty());
    }
    Ok(attrs)
}

} // verus!
