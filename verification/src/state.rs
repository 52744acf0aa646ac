//! Pending annotation state: zero or more prefix annotations qualify the
//! declaration immediately following them, then the state is consumed.

use vstd::prelude::*;

use crate::error::ParseError;
use crate::token::Ident;
use crate::token::LiteralKind;

verus! {

/// The mathematical shape of one annotation argument.
pub struct HugAnnotationArgV {
    pub name: Seq<char>,
    pub kind: LiteralKind,
    pub value: Seq<char>,
}

/// One parsed `name = literal` annotation argument: the literal's kind and
/// raw text are recorded together, with the quotes of string literals
/// already stripped.
#[derive(Debug, Clone, PartialEq)]
pub struct HugAnnotationArg {
    pub name: String,
    pub kind: LiteralKind,
    pub value: String,
}

impl DeepView for HugAnnotationArg {
    type V = HugAnnotationArgV;

    open spec fn deep_view(&self) -> HugAnnotationArgV {
        HugAnnotationArgV { name: self.name@, kind: self.kind, value: self.value@ }
    }
}

/// The element views of a sequence of annotation arguments, in order.
pub open spec fn ann_args_view(s: Seq<HugAnnotationArg>) -> Seq<HugAnnotationArgV> {
    Seq::new(s.len(), |i: int| s[i].deep_view())
}

/// The mathematical shape of one pending custom annotation.
pub struct HugCustomAnnotationV {
    pub key: Ident,
    pub args: Seq<HugAnnotationArgV>,
}

/// One pending custom annotation: its identifier and its argument list.
#[derive(Debug, Clone, PartialEq)]
pub struct HugCustomAnnotation {
    pub key: Ident,
    pub args: Vec<HugAnnotationArg>,
}

impl DeepView for HugCustomAnnotation {
    type V = HugCustomAnnotationV;

    open spec fn deep_view(&self) -> HugCustomAnnotationV {
        HugCustomAnnotationV {
            key: self.key,
            args: Seq::new(self.args@.len(), |i: int| self.args@[i].deep_view()),
        }
    }
}

/// The mathematical shape of the pending annotation state.
pub struct HugTreeAnnotationStateV {
    pub is_extern: bool,
    pub extern_location: Seq<char>,
    pub custom: Seq<HugCustomAnnotationV>,
}

/// The annotation state before a pending state was recorded.
pub open spec fn empty_annotation_state_v() -> HugTreeAnnotationStateV {
    HugTreeAnnotationStateV {
        is_extern: false,
        extern_location: Seq::empty(),
        custom: Seq::empty(),
    }
}

/// Whether a custom annotation under `key` is already pending.
pub open spec fn has_custom(cs: Seq<HugCustomAnnotationV>, key: Ident) -> bool {
    exists|j: int| 0 <= j < cs.len() && cs[j].key == key
}

/// The pending annotation state: an extern flag with its location (the
/// empty location is a valid, present location), and the pending custom
/// annotations. A false flag means no extern annotation was seen.
#[derive(Debug, PartialEq)]
pub struct HugTreeAnnotationState {
    pub is_extern: bool,
    pub extern_location: String,
    pub custom: Vec<HugCustomAnnotation>,
}

impl DeepView for HugTreeAnnotationState {
    type V = HugTreeAnnotationStateV;

    open spec fn deep_view(&self) -> HugTreeAnnotationStateV {
        HugTreeAnnotationStateV {
            is_extern: self.is_extern,
            extern_location: self.extern_location@,
            custom: Seq::new(self.custom@.len(), |i: int| self.custom@[i].deep_view()),
        }
    }
}

impl HugTreeAnnotationState {
    /// Creates state with nothing pending.
    pub fn new() -> (s: HugTreeAnnotationState)
        ensures
            s.deep_view() == empty_annotation_state_v(),
    {
        let s = HugTreeAnnotationState {
            is_extern: false,
            extern_location: String::new(),
            custom: Vec::new(),
        };
        proof {
            assert(s.deep_view().custom =~= empty_annotation_state_v().custom);
        }
        s
    }

    /// Clears all pending annotation state.
    pub fn reset(&mut self)
        ensures
            final(self).deep_view() == empty_annotation_state_v(),
    {
        self.is_extern = false;
        self.extern_location = String::new();
        self.custom = Vec::new();
        proof {
            assert(self.deep_view().custom =~= empty_annotation_state_v().custom);
        }
    }

    /// Registers a custom annotation's argument map under its identifier;
    /// registering the same identifier before consumption fails loudly.
    pub fn push_custom(&mut self, key: Ident, value: Vec<HugAnnotationArg>) -> (r: Result<
        (),
        ParseError,
    >)
        ensures
            match r {
                Ok(()) => !has_custom(old(self).deep_view().custom, key)
                    && final(self).deep_view() == (HugTreeAnnotationStateV {
                    custom: old(self).deep_view().custom.push(
                        HugCustomAnnotationV {
                            key,
                            args: Seq::new(value@.len(), |i: int| value@[i].deep_view()),
                        },
                    ),
                    ..old(self).deep_view()
                }),
                Err(e) => has_custom(old(self).deep_view().custom, key) && e == (
                ParseError::DuplicateAnnotation { key }) && *final(self) == *old(self),
            },
    {
        let ghost cs0 = self.deep_view().custom;
        let n = self.custom.len();
        let mut i: usize = 0;
        while i < n
            invariant
                n == self.custom@.len(),
                i <= n,
                *self == *old(self),
                cs0 == self.deep_view().custom,
                forall|k: int| 0 <= k < i ==> cs0[k].key != key,
            decreases n - i,
        {
            proof {
                assert(cs0[i as int] == self.custom@[i as int].deep_view());
            }
            if self.custom[i].key == key {
                proof {
                    assert(has_custom(cs0, key));
                }
                return Err(ParseError::DuplicateAnnotation { key });
            }
            i = i + 1;
        }
        let ghost args_v = Seq::new(value@.len(), |i: int| value@[i].deep_view());
        self.custom.push(HugCustomAnnotation { key, args: value });
        proof {
            assert(!has_custom(cs0, key));
            assert(self.deep_view().custom =~= cs0.push(
                HugCustomAnnotationV { key, args: args_v },
            ));
        }
        Ok(())
    }

    /// The argument map registered under `key`, when one is pending.
    pub fn get_custom(&self, key: Ident) -> (r: Option<&Vec<HugAnnotationArg>>)
        ensures
            match r {
                Some(v) => has_custom(self.deep_view().custom, key) && (exists|j: int|
                    0 <= j < self.deep_view().custom.len() && self.deep_view().custom[j] == (
                    HugCustomAnnotationV {
                        key,
                        args: Seq::new(v@.len(), |i: int| v@[i].deep_view()),
                    })),
                None => !has_custom(self.deep_view().custom, key),
            },
    {
        let ghost cs0 = self.deep_view().custom;
        let n = self.custom.len();
        let mut i: usize = 0;
        while i < n
            invariant
                n == self.custom@.len(),
                cs0 == self.deep_view().custom,
                i <= n,
                forall|k: int| 0 <= k < i ==> cs0[k].key != key,
            decreases n - i,
        {
            proof {
                assert(cs0[i as int] == self.custom@[i as int].deep_view());
            }
            if self.custom[i].key == key {
                let v = &self.custom[i].args;
                proof {
                    assert(cs0[i as int] == (HugCustomAnnotationV {
                        key,
                        args: Seq::new(v@.len(), |k: int| v@[k].deep_view()),
                    }));
                }
                return Some(v);
            }
            i = i + 1;
        }
        None
    }

    /// Marks the extern flag and records its location.
    pub fn set_extern(&mut self, location: String)
        ensures
            final(self).deep_view() == (HugTreeAnnotationStateV {
                is_extern: true,
                extern_location: location@,
                ..old(self).deep_view()
            }),
    {
        self.is_extern = true;
        self.extern_location = location;
    }

    /// The extern location, only when the extern flag is set and the
    /// location is not empty; an extern annotation without arguments is
    /// pending with an empty location and yields nothing here.
    pub fn get_extern(&self) -> (r: Option<String>)
        ensures
            match r {
                Some(loc) => self.deep_view().is_extern && loc@ == self.deep_view().extern_location
                    && loc@.len() > 0,
                None => !self.deep_view().is_extern || self.deep_view().extern_location.len() == 0,
            },
    {
        if self.is_extern {
            if !self.extern_location.as_str().is_empty() {
                Some(self.extern_location.clone())
            } else {
                None
            }
        } else {
            None
        }
    }
}

} // verus!
