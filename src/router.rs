//! The paths of the application and what each one shows.
use vstd::prelude::*;
use vstd::string::*;
use crate::text::same_text;

verus! {

/// A place in the application.
#[derive(Clone, Copy, Debug, PartialEq, Eq, Structural)]
pub enum Route {
    Root,
    NotFound,
    Home,
    Todo,
    Login,
    Register,
}

/// What a route shows.
#[derive(Clone, Copy, Debug, PartialEq, Eq, Structural)]
pub enum Screen {
    Redirect(Route),
    TodoList,
    LoginForm,
    RegisterForm,
    Missing,
}

/// The path of each route.
pub open spec fn route_path(r: Route) -> Seq<char> {
    match r {
        Route::Root => "/"@,
        Route::NotFound => "/404"@,
        Route::Home => "/home"@,
        Route::Todo => "/todo"@,
        Route::Login => "/login"@,
        Route::Register => "/register"@,
    }
}

/// The route a path names; any other path is not found.
pub open spec fn route_of(path: Seq<char>) -> Route {
    if path == "/"@ {
        Route::Root
    } else if path == "/home"@ {
        Route::Home
    } else if path == "/todo"@ {
        Route::Todo
    } else if path == "/login"@ {
        Route::Login
    } else if path == "/register"@ {
        Route::Register
    } else {
        Route::NotFound
    }
}

/// What a route shows: the root and `/home` lead to the todo list.
pub open spec fn screen_of(r: Route) -> Screen {
    match r {
        Route::Root => Screen::Redirect(Route::Todo),
        Route::Home => Screen::Redirect(Route::Todo),
        Route::Todo => Screen::TodoList,
        Route::Login => Screen::LoginForm,
        Route::Register => Screen::RegisterForm,
        Route::NotFound => Screen::Missing,
    }
}

/// The path of a route.
pub fn path_of(r: Route) -> (p: &'static str)
    ensures
        p@ == route_path(r),
{
    match r {
        Route::Root => "/",
        Route::NotFound => "/404",
        Route::Home => "/home",
        Route::Todo => "/todo",
        Route::Login => "/login",
        Route::Register => "/register",
    }
}

/// The route a path names.
pub fn route_for_path(path: &str) -> (r: Route)
    ensures
        r == route_of(path@),
{
    if same_text(path, "/") {
        Route::Root
    } else if same_text(path, "/home") {
        Route::Home
    } else if same_text(path, "/todo") {
        Route::Todo
    } else if same_text(path, "/login") {
        Route::Login
    } else if same_text(path, "/register") {
        Route::Register
    } else {
        Route::NotFound
    }
}

/// What a route shows.
pub fn switch(r: Route) -> (v: Screen)
    ensures
        v == screen_of(r),
{
    match r {
        Route::Root => Screen::Redirect(Route::Todo),
        Route::Home => Screen::Redirect(Route::Todo),
        Route::Todo => Screen::TodoList,
        Route::Login => Screen::LoginForm,
        Route::Register => Screen::RegisterForm,
        Route::NotFound => Screen::Missing,
    }
}

/// Every route's own path leads back to that route.
pub proof fn lemma_path_round_trip(r: Route)
    ensures
        route_of(route_path(r)) == r,
{
    reveal_strlit("/");
    reveal_strlit("/404");
    reveal_strlit("/home");
    reveal_strlit("/todo");
    reveal_strlit("/login");
    reveal_strlit("/register");
    assert("/"@ != "/404"@) by {
        assert("/"@.len() != "/404"@.len());
    }
    assert("/"@ != "/home"@) by {
        assert("/"@.len() != "/home"@.len());
    }
    assert("/"@ != "/todo"@) by {
        assert("/"@.len() != "/todo"@.len());
    }
    assert("/"@ != "/login"@) by {
        assert("/"@.len() != "/login"@.len());
    }
    assert("/"@ != "/register"@) by {
        assert("/"@.len() != "/register"@.len());
    }
    assert("/404"@ != "/home"@) by {
        assert("/404"@.len() != "/home"@.len());
    }
    assert("/404"@ != "/todo"@) by {
        assert("/404"@.len() != "/todo"@.len());
    }
    assert("/404"@ != "/login"@) by {
        assert("/404"@.len() != "/login"@.len());
    }
    assert("/404"@ != "/register"@) by {
        assert("/404"@.len() != "/register"@.len());
    }
    assert("/home"@ != "/login"@) by {
        assert("/home"@.len() != "/login"@.len());
    }
    assert("/home"@ != "/register"@) by {
        assert("/home"@.len() != "/register"@.len());
    }
    assert("/todo"@ != "/login"@) by {
        assert("/todo"@.len() != "/login"@.len());
    }
    assert("/todo"@ != "/register"@) by {
        assert("/todo"@.len() != "/register"@.len());
    }
    assert("/login"@ != "/register"@) by {
        assert("/login"@.len() != "/register"@.len());
    }
    assert("/home"@[1] != "/todo"@[1]);
    assert("/home"@ != "/todo"@);
}

} // verus!
