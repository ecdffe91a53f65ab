//! Validation of user-supplied fields, and flattening of structured
//! validation errors.
//!
//! Validation failures form a tree: a field can fail directly, or carry a
//! nested structure or list whose members failed.  `flatten` turns the tree
//! into a flat list of (path, code, message) records; the field validators
//! return exact results, with the email check delegated to the HTML5-spec
//! validation of an outside crate behind a named result.

use vstd::prelude::*;
use vstd::string::{StrSliceExecFns, StringExecFns, StringSliceAdditionalSpecFns};

verus! {

/// Largest accepted password, in bytes.
pub const MAX_USER_PASSWORD_SIZE: usize = 64;

/// Largest accepted display name, in characters.
pub const MAX_USER_NAME_SIZE: usize = 32;

/// Whether a string is a valid email address under the HTML5
/// specification: the result of the outside validator's check, a function
/// of the string alone.
pub uninterp spec fn is_email(s: Seq<char>) -> bool;

/// Relies on validator's ValidateEmail::validate_email for String: the
/// HTML5-spec email check, deterministic in the string.
#[verifier::external_body]
pub(crate) fn check_email(email: &String) -> (r: bool)
    ensures
        r == is_email(email@),
{
    validator::ValidateEmail::validate_email(email)
}

/// One direct validation failure of a field: a code and an optional
/// human-readable message.
pub struct FieldError {
    pub code: String,
    pub message: Option<String>,
}

/// How one named entry of a validation tree failed.
pub enum ValidationErrorsKind {
    /// A nested structure whose own fields failed.
    Struct(Box<ValidationErrors>),
    /// A list whose members failed.
    List(Vec<ValidationErrors>),
    /// The field itself failed, possibly several ways.
    Field(Vec<FieldError>),
}

/// A tree of validation failures: named entries, each failing some way.
pub struct ValidationErrors {
    pub entries: Vec<(String, ValidationErrorsKind)>,
}

/// One flattened validation failure: the path of field names from the root,
/// the code, and the optional message.
#[derive(Debug, PartialEq, Eq, PartialOrd, Ord)]
pub struct FlattenValidationError {
    pub name: Vec<String>,
    pub code: String,
    pub message: Option<String>,
}

/// The mathematical shadow of a flattened failure.
pub struct FlatSpec {
    pub name: Seq<Seq<char>>,
    pub code: Seq<char>,
    pub message: Option<Seq<char>>,
}

/// The view of an optional string.
pub open spec fn opt_str_view(m: Option<String>) -> Option<Seq<char>> {
    match m {
        Some(s) => Some(s@),
        None => None,
    }
}

impl View for FlattenValidationError {
    type V = FlatSpec;

    open spec fn view(&self) -> FlatSpec {
        FlatSpec {
            name: self.name.deep_view(),
            code: self.code@,
            message: opt_str_view(self.message),
        }
    }
}

impl DeepView for FlattenValidationError {
    type V = FlatSpec;

    open spec fn deep_view(&self) -> FlatSpec {
        self.view()
    }
}

/// The flattened failure for one direct field error under `path`.
pub open spec fn field_flat(path: Seq<Seq<char>>, fe: FieldError) -> FlatSpec {
    FlatSpec { name: path, code: fe.code@, message: opt_str_view(fe.message) }
}

/// Flatten a whole validation tree, depth first, in entry order.
pub open spec fn spec_flatten(errors: ValidationErrors) -> Seq<FlatSpec> {
    spec_flatten_entries(Seq::<Seq<char>>::empty(), errors.entries@)
}

/// Flatten the named entries of one tree level under `path`.
pub open spec fn spec_flatten_entries(
    path: Seq<Seq<char>>,
    entries: Seq<(String, ValidationErrorsKind)>,
) -> Seq<FlatSpec>
    decreases entries,
{
    if entries.len() == 0 {
        Seq::<FlatSpec>::empty()
    } else {
        spec_flatten_kind(path.push(entries[0].0@), entries[0].1) + spec_flatten_entries(
            path,
            entries.subrange(1, entries.len() as int),
        )
    }
}

/// Flatten one entry's failure under its extended path.
pub open spec fn spec_flatten_kind(path: Seq<Seq<char>>, kind: ValidationErrorsKind) -> Seq<
    FlatSpec,
>
    decreases kind,
{
    match kind {
        ValidationErrorsKind::Struct(b) => spec_flatten_entries(path, b.entries@),
        ValidationErrorsKind::List(trees) => spec_flatten_list(path, trees@),
        ValidationErrorsKind::Field(fes) => Seq::new(
            fes@.len(),
            |i: int| field_flat(path, fes@[i]),
        ),
    }
}

/// Flatten the members of a failed list, in order, all under `path`.
pub open spec fn spec_flatten_list(path: Seq<Seq<char>>, trees: Seq<ValidationErrors>) -> Seq<
    FlatSpec,
>
    decreases trees,
{
    if trees.len() == 0 {
        Seq::<FlatSpec>::empty()
    } else {
        spec_flatten_entries(path, trees[0].entries@) + spec_flatten_list(
            path,
            trees.subrange(1, trees.len() as int),
        )
    }
}

/// Copy a path, element for element.
fn clone_string_vec(v: &Vec<String>) -> (r: Vec<String>)
    ensures
        r@ == v@,
{
    let mut r: Vec<String> = Vec::new();
    let mut i: usize = 0;
    #[verifier::loop_isolation(false)]
    while i < v.len()
        invariant
            i <= v@.len(),
            r@ =~= v@.subrange(0, i as int),
        decreases v@.len() - i,
    {
        r.push(v[i].clone());
        proof {
            assert(r@ =~= v@.subrange(0, i as int + 1));
        }
        i = i + 1;
    }
    proof {
        assert(r@ =~= v@);
    }
    r
}

/// Copy an optional message.
fn clone_opt_string(m: &Option<String>) -> (r: Option<String>)
    ensures
        opt_str_view(r) == opt_str_view(*m),
        r is Some <==> m is Some,
{
    match m {
        Some(s) => Some(s.clone()),
        None => None,
    }
}

/// Flatten a tree of validation failures into a flat list, depth first, in
/// entry order.
pub fn flatten(errors: ValidationErrors) -> (r: Vec<FlattenValidationError>)
    ensures
        r.deep_view() == spec_flatten(errors),
{
    let mut out: Vec<FlattenValidationError> = Vec::new();
    let path: Vec<String> = Vec::new();
    flatten_entries_into(&path, &errors.entries, &mut out);
    proof {
        assert(path.deep_view() =~= Seq::<Seq<char>>::empty());
        assert(out.deep_view() =~= spec_flatten(errors));
    }
    out
}

/// Append the flattening of one tree level to `out`.
fn flatten_entries_into(
    path: &Vec<String>,
    entries: &Vec<(String, ValidationErrorsKind)>,
    out: &mut Vec<FlattenValidationError>,
)
    ensures
        final(out).deep_view() == old(out).deep_view() + spec_flatten_entries(
            path.deep_view(),
            entries@,
        ),
    decreases entries@,
{
    let ghost orig = out.deep_view();
    let ghost pathv = path.deep_view();
    proof {
        assert(entries@.subrange(0, entries@.len() as int) =~= entries@);
    }
    let mut i: usize = 0;
    #[verifier::loop_isolation(false)]
    while i < entries.len()
        invariant
            i <= entries@.len(),
            out.deep_view() + spec_flatten_entries(
                pathv,
                entries@.subrange(i as int, entries@.len() as int),
            ) =~= orig + spec_flatten_entries(pathv, entries@),
        decreases entries@.len() - i,
    {
        let ghost rest = entries@.subrange(i as int, entries@.len() as int);
        proof {
            assert(rest[0] == entries@[i as int]);
            assert(rest.subrange(1, rest.len() as int) =~= entries@.subrange(
                i as int + 1,
                entries@.len() as int,
            ));
        }
        let mut subpath = clone_string_vec(path);
        subpath.push(entries[i].0.clone());
        proof {
            assert(subpath.deep_view() =~= pathv.push(entries@[i as int].0@));
        }
        flatten_kind_into(&subpath, &entries[i].1, out);
        i = i + 1;
    }
    proof {
        assert(entries@.subrange(entries@.len() as int, entries@.len() as int) =~= Seq::<
            (String, ValidationErrorsKind),
        >::empty());
        assert(out.deep_view() + Seq::<FlatSpec>::empty() =~= out.deep_view());
        assert(out.deep_view() =~= orig + spec_flatten_entries(pathv, entries@));
    }
}

/// Append the flattening of one entry's failure to `out`.
fn flatten_kind_into(
    path: &Vec<String>,
    kind: &ValidationErrorsKind,
    out: &mut Vec<FlattenValidationError>,
)
    ensures
        final(out).deep_view() == old(out).deep_view() + spec_flatten_kind(path.deep_view(), *kind),
    decreases *kind,
{
    let ghost orig = out.deep_view();
    let ghost pathv = path.deep_view();
    match kind {
        ValidationErrorsKind::Struct(b) => {
            flatten_entries_into(path, &b.entries, out);
        },
        ValidationErrorsKind::List(trees) => {
            proof {
                assert(trees@.subrange(0, trees@.len() as int) =~= trees@);
            }
            let mut j: usize = 0;
            #[verifier::loop_isolation(false)]
            while j < trees.len()
                invariant
                    j <= trees@.len(),
                    out.deep_view() + spec_flatten_list(
                        pathv,
                        trees@.subrange(j as int, trees@.len() as int),
                    ) =~= orig + spec_flatten_list(pathv, trees@),
                decreases trees@.len() - j,
            {
                let ghost rest = trees@.subrange(j as int, trees@.len() as int);
                proof {
                    assert(rest[0] == trees@[j as int]);
                    assert(rest.subrange(1, rest.len() as int) =~= trees@.subrange(
                        j as int + 1,
                        trees@.len() as int,
                    ));
                }
                flatten_entries_into(path, &trees[j].entries, out);
                j = j + 1;
            }
            proof {
                assert(trees@.subrange(trees@.len() as int, trees@.len() as int) =~= Seq::<
                    ValidationErrors,
                >::empty());
                assert(out.deep_view() + Seq::<FlatSpec>::empty() =~= out.deep_view());
                assert(out.deep_view() =~= orig + spec_flatten_kind(pathv, *kind));
            }
        },
        ValidationErrorsKind::Field(fes) => {
            let mut j: usize = 0;
            #[verifier::loop_isolation(false)]
            while j < fes.len()
                invariant
                    j <= fes@.len(),
                    out.deep_view() =~= orig + Seq::new(j as nat, |i: int| field_flat(pathv, fes@[i])),
                decreases fes@.len() - j,
            {
                let name = clone_string_vec(path);
                let code = fes[j].code.clone();
                let message = clone_opt_string(&fes[j].message);
                let flat = FlattenValidationError { name, code, message };
                proof {
                    assert(flat.deep_view() == field_flat(pathv, fes@[j as int]));
                }
                let ghost before = out.deep_view();
                out.push(flat);
                proof {
                    assert(out.deep_view() =~= before.push(field_flat(pathv, fes@[j as int])));
                    assert(out.deep_view() =~= orig + Seq::new(
                        (j + 1) as nat,
                        |i: int| field_flat(pathv, fes@[i]),
                    ));
                }
                j = j + 1;
            }
            proof {
                assert(out.deep_view() =~= orig + spec_flatten_kind(pathv, *kind));
            }
        },
    }
}

/// The rendered message of one flattened failure: `code: message`, with the
/// word `None` where no message was given, ended by a line break.
pub open spec fn spec_error_line(e: FlatSpec) -> Seq<char> {
    e.code + ": "@ + (match e.message {
        Some(m) => m,
        None => "None"@,
    }) + "\n"@
}

/// The rendered messages of a list of flattened failures, in order.
pub open spec fn spec_error_message(s: Seq<FlatSpec>) -> Seq<char>
    decreases s.len(),
{
    if s.len() == 0 {
        Seq::<char>::empty()
    } else {
        spec_error_line(s[0]) + spec_error_message(s.subrange(1, s.len() as int))
    }
}

/// Render flattened failures as one message, a line per failure.
pub fn validation_error_message(errors: &Vec<FlattenValidationError>) -> (r: String)
    ensures
        r@ == spec_error_message(errors.deep_view()),
{
    let mut buffer = String::new();
    let mut i: usize = 0;
    let ghost flats = errors.deep_view();
    proof {
        assert(flats.subrange(0, flats.len() as int) =~= flats);
    }
    #[verifier::loop_isolation(false)]
    while i < errors.len()
        invariant
            i <= errors@.len(),
            buffer@ + spec_error_message(flats.subrange(i as int, flats.len() as int)) =~=
                spec_error_message(flats),
        decreases errors@.len() - i,
    {
        let ghost rest = flats.subrange(i as int, flats.len() as int);
        proof {
            assert(rest[0] == flats[i as int]);
            assert(rest.subrange(1, rest.len() as int) =~= flats.subrange(
                i as int + 1,
                flats.len() as int,
            ));
        }
        buffer.append(errors[i].code.as_str());
        buffer.append(": ");
        match &errors[i].message {
            Some(m) => buffer.append(m.as_str()),
            None => buffer.append("None"),
        }
        buffer.append("\n");
        i = i + 1;
    }
    proof {
        assert(flats.subrange(flats.len() as int, flats.len() as int) =~= Seq::<FlatSpec>::empty());
        assert(buffer@ =~= spec_error_message(flats));
    }
    buffer
}

/// Check an email against the HTML5 specification; on failure the message
/// names the rule, rendered the same way as every validation failure.
pub fn validate_email(email: &String) -> (r: Result<(), String>)
    ensures
        match r {
            Ok(_) => is_email(email@),
            Err(m) => !is_email(email@) && m@ == spec_error_message(
                seq![
                    FlatSpec {
                        name: seq!["email"@],
                        code: "email"@,
                        message: Some(
                            "Invalid email, only supports emails based on the HTML5 spec."@,
                        ),
                    },
                ],
            ),
        },
{
    if check_email(email) {
        return Ok(());
    }
    let mut tree = ValidationErrors { entries: Vec::new() };
    let fe = FieldError {
        code: String::from_str("email"),
        message: Some(
            String::from_str("Invalid email, only supports emails based on the HTML5 spec."),
        ),
    };
    let ghost gfe = fe;
    let mut fes: Vec<FieldError> = Vec::new();
    fes.push(fe);
    let ghost gfes = fes;
    tree.entries.push((String::from_str("email"), ValidationErrorsKind::Field(fes)));
    let ghost gtree = tree;
    let errors = flatten(tree);
    let message = validation_error_message(&errors);
    proof {
        let expected = FlatSpec {
            name: seq!["email"@],
            code: "email"@,
            message: Some("Invalid email, only supports emails based on the HTML5 spec."@),
        };
        lemma_single_field_flatten(gtree, gfes, gfe, "email"@, expected);
        assert(errors.deep_view() =~= seq![expected]);
    }
    Err(message)
}

/// A tree of one entry holding one field error flattens to that one record.
proof fn lemma_single_field_flatten(
    tree: ValidationErrors,
    fes: Vec<FieldError>,
    fe: FieldError,
    entry_name: Seq<char>,
    expected: FlatSpec,
)
    requires
        fes@ == seq![fe],
        tree.entries@.len() == 1,
        tree.entries@[0].0@ == entry_name,
        tree.entries@[0].1 == ValidationErrorsKind::Field(fes),
        expected == (FlatSpec { name: seq![entry_name], code: fe.code@, message: opt_str_view(fe.message) }),
    ensures
        spec_flatten(tree) == seq![expected],
{
    let pathv = Seq::<Seq<char>>::empty();
    let ev = tree.entries@;
    let ext = pathv.push(entry_name);
    assert(ext =~= seq![entry_name]);
    assert(ev.subrange(1, 1) =~= Seq::<(String, ValidationErrorsKind)>::empty());
    assert(spec_flatten_entries(pathv, ev.subrange(1, 1)) =~= Seq::<FlatSpec>::empty());
    assert(spec_flatten_kind(ext, ev[0].1) =~= Seq::new(1, |i: int| field_flat(ext, fes@[i])));
    assert(field_flat(ext, fes@[0]) == expected);
    assert(Seq::new(1, |i: int| field_flat(ext, fes@[i])) =~= seq![expected]);
    assert(spec_flatten(tree) =~= seq![expected]);
}

/// A password must be non-empty and at most `MAX_USER_PASSWORD_SIZE` bytes.
pub fn validate_password(password: &str) -> (r: Result<(), &'static str>)
    ensures
        match r {
            Ok(_) => 0 < password.spec_bytes().len() <= MAX_USER_PASSWORD_SIZE,
            Err(m) => if password.spec_bytes().len() == 0 {
                m@ == "The password field should not be empty"@
            } else {
                password.spec_bytes().len() > MAX_USER_PASSWORD_SIZE && m@
                    == "Shorten the password."@
            },
        },
{
    let bytes = password.as_bytes();
    if bytes.len() == 0 {
        return Err("The password field should not be empty");
    }
    if bytes.len() > MAX_USER_PASSWORD_SIZE {
        return Err("Shorten the password.");
    }
    Ok(())
}

/// The password and its confirmation must agree.
pub fn validate_confirm(password: &String, confirm: &String) -> (r: Result<(), &'static str>)
    ensures
        match r {
            Ok(_) => password@ == confirm@,
            Err(m) => password@ != confirm@ && m@ == "Passwords are not the same."@,
        },
{
    if *password == *confirm {
        Ok(())
    } else {
        Err("Passwords are not the same.")
    }
}

/// A display name must be non-empty and at most `MAX_USER_NAME_SIZE`
/// characters; on failure the message names the rule, rendered the same
/// way as every validation failure.
pub fn validate_name(name: &String) -> (r: Result<(), String>)
    ensures
        match r {
            Ok(_) => 0 < name@.len() <= MAX_USER_NAME_SIZE,
            Err(m) => !(0 < name@.len() <= MAX_USER_NAME_SIZE) && m@ == spec_error_message(
                seq![FlatSpec { name: seq!["name"@], code: "length"@, message: None }],
            ),
        },
{
    let len = name.as_str().unicode_len();
    if 0 < len && len <= MAX_USER_NAME_SIZE {
        return Ok(());
    }
    let mut tree = ValidationErrors { entries: Vec::new() };
    let fe = FieldError { code: String::from_str("length"), message: None };
    let ghost gfe = fe;
    let mut fes: Vec<FieldError> = Vec::new();
    fes.push(fe);
    let ghost gfes = fes;
    tree.entries.push((String::from_str("name"), ValidationErrorsKind::Field(fes)));
    let ghost gtree = tree;
    let errors = flatten(tree);
    let message = validation_error_message(&errors);
    proof {
        let expected = FlatSpec { name: seq!["name"@], code: "length"@, message: None };
        lemma_single_field_flatten(gtree, gfes, gfe, "name"@, expected);
        assert(errors.deep_view() =~= seq![expected]);
    }
    Err(message)
}

} // verus!
