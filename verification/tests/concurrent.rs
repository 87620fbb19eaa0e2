use probers::init::{Directive, ProviderInitializer};

#[derive(Clone, Copy, PartialEq, Debug)]
enum Caller {
    Arriving,
    Building,
    Waiting,
    Finished(Option<u32>, bool),
}

/// Runs `callers` accessors against one provider, one step at a time in the
/// order that `seed` gives, and returns how many constructions ran and what
/// each caller saw at the end.
fn interleave(callers: usize, seed: u64, fail: bool) -> (u32, Vec<Caller>) {
    let mut init: ProviderInitializer<u32, String> = ProviderInitializer::new();
    let mut states = vec![Caller::Arriving; callers];
    let mut builds = 0u32;
    let mut random = seed;
    while states.iter().any(|s| !matches!(s, Caller::Finished(..))) {
        random = random.wrapping_mul(6364136223846793005).wrapping_add(1442695040888963407);
        let who = (random >> 33) as usize % callers;
        states[who] = match states[who] {
            Caller::Arriving | Caller::Waiting => match init.begin() {
                Directive::Build => {
                    builds += 1;
                    Caller::Building
                }
                Directive::Wait => Caller::Waiting,
                Directive::Done => {
                    Caller::Finished(init.peek().copied(), init.get_init_error().is_some())
                }
            },
            Caller::Building => {
                let outcome = if fail { Err(format!("caller {}", who)) } else { Ok(who as u32) };
                assert!(init.resolve(outcome));
                Caller::Finished(init.peek().copied(), init.get_init_error().is_some())
            }
            done => done,
        };
        if let Caller::Waiting = states[who] {
            assert_eq!(init.peek(), None);
            assert_eq!(init.get_init_error(), None);
        }
    }
    (builds, states)
}

#[test]
fn interleaved_accesses_build_once_and_agree() {
    for seed in 0..200u64 {
        let (builds, seen) = interleave(8, seed, false);
        assert_eq!(builds, 1);
        assert!(matches!(seen[0], Caller::Finished(Some(_), false)));
        for other in &seen {
            assert_eq!(*other, seen[0]);
        }
    }
}

#[test]
fn interleaved_accesses_agree_on_a_failure() {
    for seed in 0..200u64 {
        let (builds, seen) = interleave(5, seed, true);
        assert_eq!(builds, 1);
        for other in &seen {
            assert_eq!(*other, Caller::Finished(None, true));
        }
    }
}
