//! Form data and its validation.

use crate::text::{
    blank, contains_char, is_alphanumeric, is_alphanumeric_char, is_blank, str_eq,
};
use vstd::prelude::*;

verus! {

/// Number of bytes of a string in UTF-8, as `str::len` reports it.
pub open spec fn byte_len(s: Seq<char>) -> usize {
    vstd::utf8::encode_utf8(s).len() as usize
}

/// Form data for a new product.
#[derive(Debug)]
pub struct NewProductForm {
    pub supplier_name: String,
    pub product_name: String,
    pub location: String,
    pub description: String,
}

impl NewProductForm {
    /// The first complaint about the form, if there is one.
    pub open spec fn complaint(&self) -> Option<Seq<char>> {
        if is_blank(self.supplier_name@) {
            Some("Supplier name cannot be empty"@)
        } else if is_blank(self.product_name@) {
            Some("Product name cannot be empty"@)
        } else if is_blank(self.location@) {
            Some("Location cannot be empty"@)
        } else if is_blank(self.description@) {
            Some("Description cannot be empty"@)
        } else {
            None
        }
    }

    /// Accepts the form when no field is blank; otherwise names the first
    /// blank field.
    pub fn validate(&self) -> (r: Result<(), String>)
        ensures
            match r {
                Ok(_) => self.complaint() is None,
                Err(m) => self.complaint() == Some(m@),
            },
    {
        if blank(self.supplier_name.as_str()) {
            return Err(String::from_str("Supplier name cannot be empty"));
        }
        if blank(self.product_name.as_str()) {
            return Err(String::from_str("Product name cannot be empty"));
        }
        if blank(self.location.as_str()) {
            return Err(String::from_str("Location cannot be empty"));
        }
        if blank(self.description.as_str()) {
            return Err(String::from_str("Description cannot be empty"));
        }
        Ok(())
    }
}

/// The kinds of preparation.
pub open spec fn is_prep_type(s: Seq<char>) -> bool {
    s == "fruit"@ || s == "bread"@ || s == "veg"@ || s == "meat"@ || s == "seafood"@
}

/// The shifts a preparation can belong to.
pub open spec fn is_shift(s: Seq<char>) -> bool {
    s == "brekkie"@ || s == "lunch"@ || s == "both"@
}

/// Whether `s` names a kind of preparation.
pub fn valid_prep_type(s: &str) -> (r: bool)
    ensures
        r == is_prep_type(s@),
{
    str_eq(s, "fruit") || str_eq(s, "bread") || str_eq(s, "veg") || str_eq(s, "meat") || str_eq(
        s,
        "seafood",
    )
}

/// Whether `s` names a shift.
pub fn valid_shift(s: &str) -> (r: bool)
    ensures
        r == is_shift(s@),
{
    str_eq(s, "brekkie") || str_eq(s, "lunch") || str_eq(s, "both")
}

/// Form data for a new preparation.
#[derive(Debug)]
pub struct NewPreparationForm {
    pub name: String,
    pub prep_type: String,
    pub shift: String,
    pub location: String,
    pub steps: String,
}

impl NewPreparationForm {
    /// The first complaint about the form, if there is one.
    pub open spec fn complaint(&self) -> Option<Seq<char>> {
        if is_blank(self.name@) {
            Some("Preparation name cannot be empty"@)
        } else if !is_prep_type(self.prep_type@) {
            Some("Invalid preparation type"@)
        } else if !is_shift(self.shift@) {
            Some("Invalid shift selection"@)
        } else if is_blank(self.location@) {
            Some("Location cannot be empty"@)
        } else if is_blank(self.steps@) {
            Some("Steps cannot be empty"@)
        } else {
            None
        }
    }

    /// Accepts the form when name, location and steps are not blank and the
    /// kind and shift are known ones; otherwise gives the first complaint.
    pub fn validate(&self) -> (r: Result<(), String>)
        ensures
            match r {
                Ok(_) => self.complaint() is None,
                Err(m) => self.complaint() == Some(m@),
            },
    {
        if blank(self.name.as_str()) {
            return Err(String::from_str("Preparation name cannot be empty"));
        }
        if !valid_prep_type(self.prep_type.as_str()) {
            return Err(String::from_str("Invalid preparation type"));
        }
        if !valid_shift(self.shift.as_str()) {
            return Err(String::from_str("Invalid shift selection"));
        }
        if blank(self.location.as_str()) {
            return Err(String::from_str("Location cannot be empty"));
        }
        if blank(self.steps.as_str()) {
            return Err(String::from_str("Steps cannot be empty"));
        }
        Ok(())
    }
}

/// Form data for a login.
#[derive(Debug)]
pub struct LoginForm {
    pub username: String,
    pub password: String,
}

/// The characters a user name may hold: letters, digits and the underscore.
pub open spec fn is_username_char(c: char) -> bool {
    is_alphanumeric_char(c) || c == '_'
}

/// Whether every character of `s` may stand in a user name.
pub open spec fn all_username_chars(s: Seq<char>) -> bool {
    forall|i: int| 0 <= i < s.len() ==> is_username_char(#[trigger] s[i])
}

/// Whether every character of `s` may stand in a user name.
pub fn only_username_chars(s: &str) -> (r: bool)
    ensures
        r == all_username_chars(s@),
{
    let mut all = true;
    for c in it: s.chars()
        invariant
            it.seq() == s@,
            all <==> forall|j: int| 0 <= j < it.index() ==> is_username_char(#[trigger] s@[j]),
    {
        if !(is_alphanumeric(c) || c == '_') {
            all = false;
        }
    }
    all
}

/// Form data for a registration.
#[derive(Debug)]
pub struct RegisterForm {
    pub username: String,
    pub email: String,
    pub password: String,
    pub confirm_password: String,
}

impl RegisterForm {
    /// The first complaint about the form, if there is one. Lengths are
    /// counted in bytes.
    pub open spec fn complaint(&self) -> Option<Seq<char>> {
        if is_blank(self.username@) {
            Some("Username cannot be empty"@)
        } else if byte_len(self.username@) < 3 {
            Some("Username must be at least 3 characters"@)
        } else if byte_len(self.username@) > 50 {
            Some("Username cannot exceed 50 characters"@)
        } else if !all_username_chars(self.username@) {
            Some("Username can only contain letters, numbers, and underscores"@)
        } else if is_blank(self.email@) {
            Some("Email cannot be empty"@)
        } else if !self.email@.contains('@') || !self.email@.contains('.') {
            Some("Invalid email format"@)
        } else if byte_len(self.password@) < 6 {
            Some("Password must be at least 6 characters"@)
        } else if self.password@ != self.confirm_password@ {
            Some("Passwords do not match"@)
        } else {
            None
        }
    }

    /// Accepts a registration whose user name has 3 to 50 bytes of letters,
    /// digits and underscores, whose email holds `@` and `.`, and whose
    /// password has at least 6 bytes and is repeated exactly; otherwise gives
    /// the first complaint.
    pub fn validate(&self) -> (r: Result<(), String>)
        ensures
            match r {
                Ok(_) => self.complaint() is None,
                Err(m) => self.complaint() == Some(m@),
            },
    {
        if blank(self.username.as_str()) {
            return Err(String::from_str("Username cannot be empty"));
        }
        if self.username.as_str().len() < 3 {
            return Err(String::from_str("Username must be at least 3 characters"));
        }
        if self.username.as_str().len() > 50 {
            return Err(String::from_str("Username cannot exceed 50 characters"));
        }
        if !only_username_chars(self.username.as_str()) {
            return Err(
                String::from_str("Username can only contain letters, numbers, and underscores"),
            );
        }
        if blank(self.email.as_str()) {
            return Err(String::from_str("Email cannot be empty"));
        }
        if !contains_char(self.email.as_str(), '@') || !contains_char(self.email.as_str(), '.') {
            return Err(String::from_str("Invalid email format"));
        }
        if self.password.as_str().len() < 6 {
            return Err(String::from_str("Password must be at least 6 characters"));
        }
        if !str_eq(self.password.as_str(), self.confirm_password.as_str()) {
            return Err(String::from_str("Passwords do not match"));
        }
        Ok(())
    }
}

} // verus!
