//! The crab shown for each liveness state, a few frames each.
use crate::liveness::Happiness;
use vstd::prelude::*;

verus! {

/// How many animation frames the crab has in state `h`.
pub open spec fn frame_count(h: Happiness) -> nat {
    match h {
        Happiness::Undecided => 2,
        Happiness::Sad => 2,
        Happiness::Okayish => 2,
        Happiness::Buzzing => 4,
    }
}

/// Frame `i` of the crab in state `h`.
pub open spec fn ferris_frame(h: Happiness, i: nat) -> &'static str {
    match h {
        Happiness::Undecided => if i == 0 {
            r"
    _~^~^~_        
   / o  o  \       
  '_       _'      
  \ '-----' /      
"
        } else {
            r"
    _~^~^~_       
   /  o  o \      
  '_       _'     
  \ '-----' /     
"
        },
        Happiness::Sad => if i == 0 {
            r"
    _~^~^~_       
\) / .  .  \ (/   
  '_  / \  _'     
  \ '-----' \     
"
        } else {
            r"
    _~^~^~_       
\) /  .  . \ (/   
  '_  / \  _'     
  / '-----' /     
"
        },
        Happiness::Okayish => if i == 0 {
            r"
    _~^~^~_       
\) /  o o  \ (/   
  '_   ==  _'     
  \ '-----' /     
"
        } else {
            r"
    _~^~^~_       
\) /  o o  \ (/   
  '_  ==   _'     
  \ '-----' /     
"
        },
        Happiness::Buzzing => if i == 0 {
            r"
    _~^~^~_       
\/ /  o O  \ \/   
  '_  \_/  _'     
  \ '-----' /     
"
        } else if i == 1 {
            r"
\/  _~^^^~_  \/   
 \ /  O o  \ /    
  '_  *o*  _'     
  / '-----' \     
"
        } else if i == 2 {
            r"
    _~^~^~_       
\/ /  o O  \ \/   
  '_  \_/  _'     
  \ '-----' /     
"
        } else {
            r"
    _~^~^~_       
\  /  O -  \  /   
  '_  \_/  _'     
  \ '-----' /     
"
        },
    }
}

/// The crab for state `happiness` at animation step `animation`; the frames
/// of each state repeat in turn.
pub fn ferris(happiness: Happiness, animation: usize) -> (r: String)
    ensures
        r@ == ferris_frame(happiness, (animation as nat % frame_count(happiness)) as nat)@,
{
    match happiness {
        Happiness::Undecided => {
            let i = animation % 2;
            if i == 0 {
                String::from_str(r"
    _~^~^~_        
   / o  o  \       
  '_       _'      
  \ '-----' /      
")
            } else {
                String::from_str(r"
    _~^~^~_       
   /  o  o \      
  '_       _'     
  \ '-----' /     
")
            }
        },
        Happiness::Sad => {
            let i = animation % 2;
            if i == 0 {
                String::from_str(r"
    _~^~^~_       
\) / .  .  \ (/   
  '_  / \  _'     
  \ '-----' \     
")
            } else {
                String::from_str(r"
    _~^~^~_       
\) /  .  . \ (/   
  '_  / \  _'     
  / '-----' /     
")
            }
        },
        Happiness::Okayish => {
            let i = animation % 2;
            if i == 0 {
                String::from_str(r"
    _~^~^~_       
\) /  o o  \ (/   
  '_   ==  _'     
  \ '-----' /     
")
            } else {
                String::from_str(r"
    _~^~^~_       
\) /  o o  \ (/   
  '_  ==   _'     
  \ '-----' /     
")
            }
        },
        Happiness::Buzzing => {
            let i = animation % 4;
            if i == 0 {
                String::from_str(r"
    _~^~^~_       
\/ /  o O  \ \/   
  '_  \_/  _'     
  \ '-----' /     
")
            } else if i == 1 {
                String::from_str(r"
\/  _~^^^~_  \/   
 \ /  O o  \ /    
  '_  *o*  _'     
  / '-----' \     
")
            } else if i == 2 {
                String::from_str(r"
    _~^~^~_       
\/ /  o O  \ \/   
  '_  \_/  _'     
  \ '-----' /     
")
            } else {
                String::from_str(r"
    _~^~^~_       
\  /  O -  \  /   
  '_  \_/  _'     
  \ '-----' /     
")
            }
        },
    }
}

} // verus!
