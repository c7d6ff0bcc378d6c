use kitchen_guide::models::{
    only_username_chars, valid_prep_type, valid_shift, LoginForm, NewPreparationForm,
    NewProductForm, RegisterForm,
};
use kitchen_guide::text::{blank, contains_char, decimal_string, is_whitespace, trim};

fn product(supplier: &str, name: &str, location: &str, description: &str) -> NewProductForm {
    NewProductForm {
        supplier_name: supplier.to_string(),
        product_name: name.to_string(),
        location: location.to_string(),
        description: description.to_string(),
    }
}

fn preparation(name: &str, kind: &str, shift: &str, location: &str, steps: &str) -> NewPreparationForm {
    NewPreparationForm {
        name: name.to_string(),
        prep_type: kind.to_string(),
        shift: shift.to_string(),
        location: location.to_string(),
        steps: steps.to_string(),
    }
}

fn registration(username: &str, email: &str, password: &str, confirm: &str) -> RegisterForm {
    RegisterForm {
        username: username.to_string(),
        email: email.to_string(),
        password: password.to_string(),
        confirm_password: confirm.to_string(),
    }
}

#[test]
fn blank_means_whitespace_only() {
    assert!(blank(""));
    assert!(blank(" \t\r\n"));
    assert!(blank("\u{a0}\u{2003}\u{3000}"));
    assert!(!blank(" a "));
    assert!(!blank("\u{200b}"));
}

#[test]
fn product_form_names_the_first_blank_field() {
    assert_eq!(product("s", "p", "l", "d").validate(), Ok(()));
    assert_eq!(
        product(" ", "", "", "").validate(),
        Err("Supplier name cannot be empty".to_string())
    );
    assert_eq!(
        product("s", "\t", "", "").validate(),
        Err("Product name cannot be empty".to_string())
    );
    assert_eq!(product("s", "p", "", "").validate(), Err("Location cannot be empty".to_string()));
    assert_eq!(
        product("s", "p", "l", "  ").validate(),
        Err("Description cannot be empty".to_string())
    );
}

#[test]
fn preparation_form_checks_kind_and_shift() {
    assert_eq!(preparation("n", "fruit", "both", "l", "s").validate(), Ok(()));
    assert_eq!(preparation("n", "seafood", "brekkie", "l", "s").validate(), Ok(()));
    assert_eq!(
        preparation("", "fruit", "both", "l", "s").validate(),
        Err("Preparation name cannot be empty".to_string())
    );
    assert_eq!(
        preparation("n", "Fruit", "both", "l", "s").validate(),
        Err("Invalid preparation type".to_string())
    );
    assert_eq!(
        preparation("n", "meat", "dinner", "l", "s").validate(),
        Err("Invalid shift selection".to_string())
    );
    assert_eq!(
        preparation("n", "meat", "lunch", " ", "s").validate(),
        Err("Location cannot be empty".to_string())
    );
    assert_eq!(
        preparation("n", "veg", "lunch", "l", "\n").validate(),
        Err("Steps cannot be empty".to_string())
    );
}

#[test]
fn kinds_and_shifts_are_fixed_lists() {
    for kind in ["fruit", "bread", "veg", "meat", "seafood"] {
        assert!(valid_prep_type(kind));
    }
    assert!(!valid_prep_type(""));
    assert!(!valid_prep_type("fish"));
    for shift in ["brekkie", "lunch", "both"] {
        assert!(valid_shift(shift));
    }
    assert!(!valid_shift("Lunch"));
    assert!(!valid_shift("fruit"));
}

#[test]
fn registration_is_checked_in_order() {
    assert_eq!(registration("user_1", "a@b.c", "secret", "secret").validate(), Ok(()));
    assert_eq!(
        registration("  ", "a@b.c", "secret", "secret").validate(),
        Err("Username cannot be empty".to_string())
    );
    assert_eq!(
        registration("ab", "a@b.c", "secret", "secret").validate(),
        Err("Username must be at least 3 characters".to_string())
    );
    assert_eq!(
        registration(&"a".repeat(51), "a@b.c", "secret", "secret").validate(),
        Err("Username cannot exceed 50 characters".to_string())
    );
    assert_eq!(registration(&"a".repeat(50), "a@b.c", "secret", "secret").validate(), Ok(()));
    assert_eq!(
        registration("a b c", "a@b.c", "secret", "secret").validate(),
        Err("Username can only contain letters, numbers, and underscores".to_string())
    );
    assert_eq!(
        registration("abc", " ", "secret", "secret").validate(),
        Err("Email cannot be empty".to_string())
    );
    assert_eq!(
        registration("abc", "a.b", "secret", "secret").validate(),
        Err("Invalid email format".to_string())
    );
    assert_eq!(
        registration("abc", "a@b", "secret", "secret").validate(),
        Err("Invalid email format".to_string())
    );
    assert_eq!(
        registration("abc", "a@b.c", "12345", "12345").validate(),
        Err("Password must be at least 6 characters".to_string())
    );
    assert_eq!(
        registration("abc", "a@b.c", "secret", "Secret").validate(),
        Err("Passwords do not match".to_string())
    );
}

#[test]
fn lengths_are_counted_in_bytes() {
    assert_eq!(registration("é_", "a@b.c", "secret", "secret").validate(), Ok(()));
    assert_eq!(registration("abc", "a@b.c", "ééé", "ééé").validate(), Ok(()));
}

#[test]
fn user_names_hold_letters_digits_and_underscores() {
    assert!(only_username_chars(""));
    assert!(only_username_chars("Abc_123"));
    assert!(only_username_chars("żółw٣"));
    assert!(!only_username_chars("a-b"));
    assert!(!only_username_chars("a b"));
    assert!(!only_username_chars("a."));
}

#[test]
fn login_form_holds_name_and_password() {
    let form = LoginForm { username: "u".to_string(), password: "p".to_string() };
    assert_eq!(form.username, "u");
    assert_eq!(form.password, "p");
}

#[test]
fn characters_are_found() {
    assert!(contains_char("a@b", '@'));
    assert!(!contains_char("ab", '@'));
    assert!(!contains_char("", '.'));
    assert!(contains_char("é.", '.'));
}

#[test]
fn numbers_are_written_in_decimal() {
    assert_eq!(decimal_string(0), "0");
    assert_eq!(decimal_string(7), "7");
    assert_eq!(decimal_string(10), "10");
    assert_eq!(decimal_string(1203), "1203");
    assert_eq!(decimal_string(usize::MAX), usize::MAX.to_string());
}

#[test]
fn whitespace_is_the_unicode_property() {
    for code in 0u32..=0x3100 {
        if let Some(c) = char::from_u32(code) {
            assert_eq!(is_whitespace(c), c.is_whitespace(), "U+{:04X}", code);
        }
    }
    assert!(!is_whitespace('\u{180e}'));
    assert!(!is_whitespace('\u{feff}'));
    assert!(!is_whitespace('\u{10ffff}'));
}

#[test]
fn trimming_agrees_with_std() {
    for text in [
        "", " ", "a", " a", "a ", "  a b  ", "\t\n x \r\n", "\u{a0}é\u{3000}", "\u{2003}\u{2003}",
        "a\u{200b} ", " \u{1680}z\u{85}", "x  y",
    ] {
        assert_eq!(trim(text), text.trim(), "trimming {:?}", text);
        assert_eq!(blank(text), text.trim().is_empty(), "blank {:?}", text);
    }
    assert_eq!(trim("  flat bread \n"), "flat bread");
}
